//! One layer of the map, ready to be drawn.

use vstd::prelude::*;
use crate::constant::{MAP_Z, SCALING_FACTOR};
use crate::geom::Rectangle;
use crate::grid::{tile_area, Grid};
use crate::primitive::Position;
use crate::render::TileSprite;
use crate::tile_map::rows_of;

verus! {

#[derive(Clone, Debug)]
pub struct GameLayer {
    pub name: String,
    /// Rows of tile numbers, top row first; 0 stands for no tile.
    pub tiles: Vec<Vec<u32>>,
    /// For each tile, the part of the tile sheet it is drawn from.
    pub rectangles: Vec<Vec<Option<Rectangle>>>,
}

/// The sprite of the tile drawn from `source` on the cell `(x, y)`.
pub open spec fn tile_sprite(x: int, y: int, source: Rectangle) -> TileSprite {
    TileSprite {
        area: tile_area(Position { x: x as u32, y: y as u32 }),
        source,
        scale: SCALING_FACTOR,
        z: MAP_Z,
    }
}

/// How many cells of a row or rows of a layer of length `len` have
/// coordinates: all of them, unless the coordinates end before that.
pub open spec fn addressable(len: nat) -> int {
    if len <= u32::MAX + 1 {
        len as int
    } else {
        u32::MAX + 1
    }
}

/// The sprites of the first `n` cells of row `y`, from left to right.
pub open spec fn row_sprites(row: Seq<Option<Rectangle>>, y: int, n: int) -> Seq<TileSprite>
    decreases n,
{
    if n <= 0 {
        Seq::empty()
    } else {
        let before = row_sprites(row, y, n - 1);
        match row[n - 1] {
            Some(source) => before.push(tile_sprite(n - 1, y, source)),
            None => before,
        }
    }
}

/// The sprites of the first `m` rows, from the top row down.
pub open spec fn rows_sprites(rows: Seq<Seq<Option<Rectangle>>>, m: int) -> Seq<TileSprite>
    decreases m,
{
    if m <= 0 {
        Seq::empty()
    } else {
        rows_sprites(rows, m - 1) + row_sprites(rows[m - 1], m - 1, addressable(rows[m - 1].len()))
    }
}

impl GameLayer {
    /// The rows of tile numbers.
    pub open spec fn rows(self) -> Seq<Seq<u32>> {
        rows_of(self.tiles)
    }

    /// The rows of sheet rectangles.
    pub open spec fn sources(self) -> Seq<Seq<Option<Rectangle>>> {
        Seq::new(self.rectangles@.len(), |y: int| self.rectangles@[y]@)
    }

    /// What is drawn of the layer: one sprite for each cell that has a tile,
    /// row by row.
    pub open spec fn sprites(self) -> Seq<TileSprite> {
        rows_sprites(self.sources(), addressable(self.rectangles@.len()))
    }

    /// The tiles to draw for the layer, row by row from the top left.
    pub fn draw(&self) -> (sprites: Vec<TileSprite>)
        ensures
            sprites@ == self.sprites(),
    {
        let mut sprites: Vec<TileSprite> = Vec::new();
        let mut y: usize = 0;
        while y < self.rectangles.len() && y <= u32::MAX as usize
            invariant
                0 <= y <= addressable(self.rectangles@.len()),
                sprites@ == rows_sprites(self.sources(), y as int),
            ensures
                y == addressable(self.rectangles@.len()),
            decreases self.rectangles.len() - y,
        {
            let row = &self.rectangles[y];
            let ghost before = sprites@;
            let mut x: usize = 0;
            while x < row.len() && x <= u32::MAX as usize
                invariant
                    0 <= x <= addressable(row@.len()),
                    y <= u32::MAX,
                    sprites@ == before + row_sprites(row@, y as int, x as int),
                ensures
                    x == addressable(row@.len()),
                decreases row.len() - x,
            {
                if let Some(rec) = row[x] {
                    let draw_rec = Grid::to_rectangle(&Position::new(x as u32, y as u32));
                    sprites.push(
                        TileSprite { area: draw_rec, source: rec, scale: SCALING_FACTOR, z: MAP_Z },
                    );
                }
                x = x + 1;
            }
            y = y + 1;
        }
        sprites
    }
}

/// Every tile of a row is drawn at the depth of the map.
proof fn lemma_row_depth(row: Seq<Option<Rectangle>>, y: int, n: int)
    ensures
        forall|i: int|
            0 <= i < row_sprites(row, y, n).len() ==> (#[trigger] row_sprites(row, y, n)[i]).z
                == MAP_Z,
    decreases n,
{
    if n > 0 {
        lemma_row_depth(row, y, n - 1);
        let before = row_sprites(row, y, n - 1);
        let now = row_sprites(row, y, n);
        assert forall|i: int| 0 <= i < now.len() implies (#[trigger] now[i]).z == MAP_Z by {
            if i < before.len() {
                assert(now[i] == before[i]);
            }
        }
    }
}

/// Every tile of the first `m` rows is drawn at the depth of the map.
proof fn lemma_rows_depth(rows: Seq<Seq<Option<Rectangle>>>, m: int)
    ensures
        forall|i: int|
            0 <= i < rows_sprites(rows, m).len() ==> (#[trigger] rows_sprites(rows, m)[i]).z
                == MAP_Z,
    decreases m,
{
    if m > 0 {
        lemma_rows_depth(rows, m - 1);
        lemma_row_depth(rows[m - 1], m - 1, addressable(rows[m - 1].len()));
        let before = rows_sprites(rows, m - 1);
        let row = row_sprites(rows[m - 1], m - 1, addressable(rows[m - 1].len()));
        let now = rows_sprites(rows, m);
        assert forall|i: int| 0 <= i < now.len() implies (#[trigger] now[i]).z == MAP_Z by {
            if i < before.len() {
                assert(now[i] == before[i]);
            } else {
                assert(now[i] == row[i - before.len()]);
            }
        }
    }
}

/// Every tile of a layer is drawn at the depth of the map.
pub proof fn layer_is_drawn_at_map_depth(layer: GameLayer)
    ensures
        forall|i: int|
            0 <= i < layer.sprites().len() ==> (#[trigger] layer.sprites()[i]).z == MAP_Z,
{
    lemma_rows_depth(layer.sources(), addressable(layer.rectangles@.len()));
}

} // verus!
