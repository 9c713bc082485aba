//! A gate: the door of a level, three cells high, shut until the puzzle is solved.

use vstd::prelude::*;
use crate::constant::{GATE_Z, SCALING_FACTOR};
use crate::geom::{Rectangle, Vector};
use crate::grid::{tile_area, Grid};
use crate::primitive::{Dimension, Position};
use crate::render::TileSprite;

verus! {

/// The tile of the tile sheet that shows the door.
pub const GATE_INDEX: u32 = 214;

/// How many cells the door covers, counted downwards from its position.
pub const GATE_HEIGHT: u32 = 3;

#[derive(Debug)]
pub struct Gate {
    position: Position,
    state: State,
    gate_rec: Rectangle,
}

#[derive(PartialEq, Eq, Structural, Clone, Copy, Debug)]
pub enum State {
    Opened,
    Closed,
}

/// What a gate is: where its top cell lies, whether it is shut, and the
/// part of the tile sheet it is drawn from.
pub struct GateView {
    pub position: Position,
    pub state: State,
    pub gate_rec: Rectangle,
}

/// Whether a tile sheet with tiles of size `tile` in an image of size
/// `image` has at least one tile in each row, so that tiles can be looked up.
/// The width of an image is a positive `i32`.
pub open spec fn sheet_has_tiles(tile: Dimension, image: Dimension) -> bool {
    &&& tile.width > 0
    &&& tile.height > 0
    &&& image.width >= tile.width
    &&& image.width >= tile.height
    &&& image.width <= i32::MAX
}

/// The part of the tile sheet that tile `tile_index` is drawn from. Tiles are
/// numbered from 1, row by row; the column is taken from the remainder of the
/// number by the tiles per row, less one.
pub open spec fn tile_rectangle(tile_index: u32, tile: Dimension, image: Dimension) -> Rectangle {
    Rectangle {
        pos: Vector {
            x: ((tile_index as int % (image.width as int / tile.width as int)) * tile.width
                - tile.width) as i64,
            y: ((tile_index as int / (image.width as int / tile.height as int))
                * tile.height) as i64,
        },
        size: Vector { x: tile.width as i64, y: tile.height as i64 },
    }
}

impl GateView {
    /// Whether the door is shut and covers the cell `(x, y)`.
    pub open spec fn occupies(self, x: int, y: int) -> bool {
        &&& self.state == State::Closed
        &&& x == self.position.x
        &&& self.position.y <= y < self.position.y + GATE_HEIGHT
    }

    /// The same gate, open.
    pub open spec fn opened(self) -> GateView {
        GateView { position: self.position, state: State::Opened, gate_rec: self.gate_rec }
    }

    /// The sprite of the `k`-th cell of the door, counted from the top.
    pub open spec fn sprite(self, k: int) -> TileSprite {
        TileSprite {
            area: tile_area(Position { x: self.position.x, y: (self.position.y + k) as u32 }),
            source: self.gate_rec,
            scale: SCALING_FACTOR,
            z: GATE_Z,
        }
    }

    /// How many cells the door covers: three, unless the grid's coordinates
    /// end before that.
    pub open spec fn height(self) -> nat {
        if self.position.y + GATE_HEIGHT <= u32::MAX + 1 {
            GATE_HEIGHT as nat
        } else {
            (u32::MAX + 1 - self.position.y) as nat
        }
    }

    /// What is drawn of the door: nothing once it is open, else one tile for
    /// each of its cells, from the top down.
    pub open spec fn sprites(self) -> Seq<TileSprite> {
        if self.state == State::Closed {
            Seq::new(self.height(), |k: int| self.sprite(k))
        } else {
            Seq::empty()
        }
    }
}

impl View for Gate {
    type V = GateView;

    closed spec fn view(&self) -> GateView {
        GateView { position: self.position, state: self.state, gate_rec: self.gate_rec }
    }
}

impl Gate {
    /// A closed gate whose top cell is `position`.
    pub fn new(position: Position, tile: Dimension, image: Dimension) -> (gate: Self)
        requires
            sheet_has_tiles(tile, image),
        ensures
            gate@ == (GateView {
                position,
                state: State::Closed,
                gate_rec: tile_rectangle(GATE_INDEX, tile, image),
            }),
    {
        let gate_rec = Self::to_rectangle(GATE_INDEX, &tile, &image);
        Gate { position, state: State::Closed, gate_rec }
    }

    /// Opens the door. An open gate stays open.
    pub fn open(&mut self)
        ensures
            final(self)@ == old(self)@.opened(),
    {
        self.state = State::Opened;
    }

    /// Whether the door is shut and covers the cell `(x, y)`.
    pub fn is_gate(&self, x: u32, y: u32) -> (covered: bool)
        ensures
            covered == self@.occupies(x as int, y as int),
    {
        self.is_close() && self.position.x == x && self.position.y <= y && (y - self.position.y)
            < GATE_HEIGHT
    }

    pub fn is_close(&self) -> (closed: bool)
        ensures
            closed == (self@.state == State::Closed),
    {
        match self.state {
            State::Opened => false,
            State::Closed => true,
        }
    }

    /// The top cell of the door.
    pub fn position(&self) -> (position: Position)
        ensures
            position == self@.position,
    {
        self.position
    }

    /// The tiles to draw for the door, top cell first.
    pub fn draw(&self) -> (sprites: Vec<TileSprite>)
        ensures
            sprites@ == self@.sprites(),
    {
        let mut sprites: Vec<TileSprite> = Vec::new();
        if self.is_close() {
            let mut k: u32 = 0;
            while k < GATE_HEIGHT && k <= u32::MAX - self.position.y
                invariant
                    k <= self@.height(),
                    self@.state == State::Closed,
                    sprites@ == Seq::new(k as nat, |i: int| self@.sprite(i)),
                ensures
                    k == self@.height(),
                decreases GATE_HEIGHT - k,
            {
                let cell = Position::new(self.position.x, self.position.y + k);
                sprites.push(
                    TileSprite {
                        area: Grid::to_rectangle(&cell),
                        source: self.gate_rec,
                        scale: SCALING_FACTOR,
                        z: GATE_Z,
                    },
                );
                k = k + 1;
            }
        }
        sprites
    }

    /// The part of the tile sheet that tile `tile_index` is drawn from.
    pub fn to_rectangle(tile_index: u32, tile: &Dimension, image: &Dimension) -> (r: Rectangle)
        requires
            sheet_has_tiles(*tile, *image),
        ensures
            r == tile_rectangle(tile_index, *tile, *image),
    {
        assert(image.width as int / tile.width as int >= 1 && image.width as int / tile.height as int
            >= 1) by (nonlinear_arith)
            requires
                sheet_has_tiles(*tile, *image),
        ;
        let per_row: u32 = image.width / tile.width;
        let per_column: u32 = image.width / tile.height;
        let column: u32 = tile_index % per_row;
        let row: u32 = tile_index / per_column;
        assert(column * tile.width <= image.width) by (nonlinear_arith)
            requires
                0 <= column < per_row,
                per_row == image.width as int / tile.width as int,
                tile.width > 0,
        ;
        assert(row * tile.height <= 0xffff_ffff * 0x7fff_ffff) by (nonlinear_arith)
            requires
                0 <= row <= 0xffff_ffff,
                0 <= tile.height <= 0x7fff_ffff,
        ;
        Rectangle::new(
            (
                (column as i64 * tile.width as i64) - tile.width as i64,
                row as i64 * tile.height as i64,
            ),
            (tile.width as i64, tile.height as i64),
        )
    }
}

} // verus!
