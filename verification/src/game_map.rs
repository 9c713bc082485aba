//! The map of a level: its layers, what they allow to walk on, and its gate.

use vstd::prelude::*;
use crate::constant::{GATE_Z, MAP_Z};
use crate::game_layer::{layer_is_drawn_at_map_depth, GameLayer};
use crate::gate::{sheet_has_tiles, tile_rectangle, Gate, GateView, State, GATE_INDEX};
use crate::geom::Rectangle;
use crate::grid::Grid;
use crate::primitive::{Dimension, Position};
use crate::render::TileSprite;
use crate::tile_map::{rows_of, LayerData, TileMap};

verus! {

/// The class of every cell, row by row; the rows need not be equally long.
pub type GridMap = Vec<Vec<Grid>>;

/// The tile numbers that show floor.
pub open spec fn path_set() -> Set<u32> {
    set![
        197u32, 196u32, 221u32, 271u32, 246u32, 248u32, 269u32, 268u32, 270u32, 277u32, 278u32,
        279u32, 280u32, 256u32, 228u32, 229u32, 230u32, 231u32, 232u32, 233u32, 234u32, 154u32,
        155u32, 160u32, 161u32,
    ]
}

/// The class of a tile: no tile is empty, a floor tile is path, and every
/// other tile is in the way.
pub open spec fn class_of(tile: u32) -> Grid {
    if tile == 0 {
        Grid::Empty
    } else if path_set().contains(tile) {
        Grid::Path
    } else {
        Grid::NonPath
    }
}

/// The classes of the tiles of one layer.
pub open spec fn classified(rows: Seq<Seq<u32>>) -> Seq<Seq<Grid>> {
    Seq::new(rows.len(), |y: int| Seq::new(rows[y].len(), |x: int| class_of(rows[y][x])))
}

/// The length of row `y` of a grid; a row that is not there has length 0.
pub open spec fn row_len(grid: Seq<Seq<Grid>>, y: int) -> nat {
    if 0 <= y < grid.len() {
        grid[y].len()
    } else {
        0
    }
}

/// Whether the grid has a cell `(x, y)`.
pub open spec fn has_cell(grid: Seq<Seq<Grid>>, x: int, y: int) -> bool {
    0 <= y < grid.len() && 0 <= x < grid[y].len()
}

/// The class of the cell `(x, y)`; a cell that is not there is empty.
pub open spec fn cell_at(grid: Seq<Seq<Grid>>, x: int, y: int) -> Grid {
    if has_cell(grid, x, y) {
        grid[y][x]
    } else {
        Grid::Empty
    }
}

/// The larger of two lengths.
pub open spec fn larger(a: nat, b: nat) -> nat {
    if a >= b {
        a
    } else {
        b
    }
}

/// Two grids laid over each other: as many rows as the longer one, each row
/// as long as the longer of the two, each cell the merge of the two cells.
pub open spec fn joined(a: Seq<Seq<Grid>>, b: Seq<Seq<Grid>>) -> Seq<Seq<Grid>> {
    Seq::new(
        larger(a.len(), b.len()),
        |y: int|
            Seq::new(
                larger(row_len(a, y), row_len(b, y)),
                |x: int| cell_at(a, x, y).merged(cell_at(b, x, y)),
            ),
    )
}

/// The walkability grid of a list of layers: each layer classified, and the
/// results laid over each other from the first layer on.
pub open spec fn merged_grid(layers: Seq<Seq<Seq<u32>>>) -> Seq<Seq<Grid>>
    decreases layers.len(),
{
    if layers.len() == 0 {
        Seq::empty()
    } else {
        joined(merged_grid(layers.drop_last()), classified(layers.last()))
    }
}

/// A grid as sequences of classes.
pub open spec fn grid_view(grid: GridMap) -> Seq<Seq<Grid>> {
    Seq::new(grid@.len(), |y: int| grid@[y]@)
}

/// The rows of tile numbers of each layer.
pub open spec fn layer_rows(layers: Seq<GameLayer>) -> Seq<Seq<Seq<u32>>> {
    Seq::new(layers.len(), |i: int| layers[i].rows())
}

/// The sheet rectangle of a tile, if there is a tile.
pub open spec fn source_of(tile: u32, tile_size: Dimension, image: Dimension) -> Option<Rectangle> {
    if tile == 0 {
        None
    } else {
        Some(tile_rectangle(tile, tile_size, image))
    }
}

/// Whether `layer` is the layer named `name` with the tiles `rows`, each
/// with its sheet rectangle.
pub open spec fn is_layer_of(
    layer: GameLayer,
    name: Seq<char>,
    rows: Seq<Seq<u32>>,
    tile_size: Dimension,
    image: Dimension,
) -> bool {
    &&& layer.name@ == name
    &&& layer.rows() == rows
    &&& layer.sources() == Seq::new(
        rows.len(),
        |y: int| Seq::new(rows[y].len(), |x: int| source_of(rows[y][x], tile_size, image)),
    )
}

/// The larger of two lengths.
fn longer(a: usize, b: usize) -> (m: usize)
    ensures
        m == larger(a as nat, b as nat),
{
    if a >= b {
        a
    } else {
        b
    }
}

/// The length of row `y`; a row that is not there has length 0.
fn row_length(grid: &GridMap, y: usize) -> (len: usize)
    ensures
        len == row_len(grid_view(*grid), y as int),
{
    if y < grid.len() {
        grid[y].len()
    } else {
        0
    }
}

/// The class of the cell `(x, y)`; a cell that is not there is empty.
fn cell_or_empty(grid: &GridMap, x: usize, y: usize) -> (cell: Grid)
    ensures
        cell == cell_at(grid_view(*grid), x as int, y as int),
{
    if y < grid.len() && x < grid[y].len() {
        grid[y][x]
    } else {
        Grid::Empty
    }
}

/// Whether the tile number shows floor.
pub fn is_path_tile(tile: u32) -> (is_path: bool)
    ensures
        is_path == path_set().contains(tile),
{
    match tile {
        197 | 196 | 221 | 271 | 246 | 248 | 269 | 268 | 270 | 277 | 278 | 279 | 280 | 256 | 228
        | 229 | 230 | 231 | 232 | 233 | 234 | 154 | 155 | 160 | 161 => true,
        _ => false,
    }
}

/// The class of a tile.
pub fn classify(tile: u32) -> (class: Grid)
    ensures
        class == class_of(tile),
{
    if tile == 0 {
        return Grid::Empty;
    }
    if is_path_tile(tile) {
        return Grid::Path;
    }
    Grid::NonPath
}

/// Why a tile map cannot be made into the map of a level.
#[derive(PartialEq, Eq, Structural, Clone, Copy, Debug)]
pub enum MapParseError {
    /// The map names no tileset.
    MissingTileset,
    /// The first tileset has no image.
    MissingImage,
    /// A tile has no width or no height, or the image of the tileset is
    /// narrower than a tile or has a negative size.
    InvalidDimensions,
    /// A layer has no bounds.
    InfiniteLayer,
}

#[derive(Debug)]
pub struct GameMap {
    layers: Vec<GameLayer>,
    grid: GridMap,
    gate: Gate,
    tileset_image: String,
}

/// What a map is: its layers from the bottom up, the class of each cell,
/// its gate, and the file of its tile sheet.
pub struct MapView {
    pub layers: Seq<GameLayer>,
    pub grid: Seq<Seq<Grid>>,
    pub gate: GateView,
    pub tileset_image: Seq<char>,
}

/// The sprites of the first `n` layers, bottom layer first.
pub open spec fn layers_sprites(layers: Seq<GameLayer>, n: int) -> Seq<TileSprite>
    decreases n,
{
    if n <= 0 {
        Seq::empty()
    } else {
        layers_sprites(layers, n - 1) + layers[n - 1].sprites()
    }
}

impl MapView {
    /// Whether the layers make the cell floor: it lies in the grid and is
    /// path there.
    pub open spec fn on_path(self, p: Position) -> bool {
        has_cell(self.grid, p.x as int, p.y as int) && self.grid[p.y as int][p.x as int]
            == Grid::Path
    }

    /// Whether the player can stand on the cell: it is floor and the door
    /// is not shut across it.
    pub open spec fn walkable(self, p: Position) -> bool {
        self.on_path(p) && !self.gate.occupies(p.x as int, p.y as int)
    }

    /// The same map with its gate open.
    pub open spec fn opened(self) -> MapView {
        MapView {
            layers: self.layers,
            grid: self.grid,
            gate: self.gate.opened(),
            tileset_image: self.tileset_image,
        }
    }

    /// What is drawn of the map: its layers from the bottom up, then its gate.
    pub open spec fn sprites(self) -> Seq<TileSprite> {
        layers_sprites(self.layers, self.layers.len() as int) + self.gate.sprites()
    }
}

/// The size of a tile that the map states.
pub open spec fn tile_size(map: TileMap) -> Dimension {
    Dimension { width: map.tile_width, height: map.tile_height }
}

/// The size of the first image of the first tileset.
pub open spec fn image_size(map: TileMap) -> Dimension {
    Dimension {
        width: map.tilesets@[0].images@[0].width as u32,
        height: map.tilesets@[0].images@[0].height as u32,
    }
}

/// Why the tile map cannot be made into the map of a level, if it cannot.
pub open spec fn rejection(map: TileMap) -> Option<MapParseError> {
    if map.tilesets@.len() == 0 {
        Some(MapParseError::MissingTileset)
    } else if map.tilesets@[0].images@.len() == 0 {
        Some(MapParseError::MissingImage)
    } else if map.tilesets@[0].images@[0].width < 0 || map.tilesets@[0].images@[0].height < 0
        || !sheet_has_tiles(tile_size(map), image_size(map)) {
        Some(MapParseError::InvalidDimensions)
    } else if exists|i: int| 0 <= i < map.layers@.len() && map.layers@[i].tiles is Infinite {
        Some(MapParseError::InfiniteLayer)
    } else {
        None
    }
}

/// The rows of tile numbers of each layer of a tile map.
pub open spec fn source_rows(map: TileMap) -> Seq<Seq<Seq<u32>>> {
    Seq::new(map.layers@.len(), |i: int| map.layers@[i].rows())
}

/// Whether `built` is the map of a level made from the tile map `map`, with
/// a shut gate at `gate_position`.
pub open spec fn is_map_of(built: MapView, map: TileMap, gate_position: Position) -> bool {
    &&& built.layers.len() == map.layers@.len()
    &&& forall|i: int|
        0 <= i < built.layers.len() ==> is_layer_of(
            #[trigger] built.layers[i],
            map.layers@[i].name@,
            map.layers@[i].rows(),
            tile_size(map),
            image_size(map),
        )
    &&& built.grid == merged_grid(source_rows(map))
    &&& built.gate == (GateView {
        position: gate_position,
        state: State::Closed,
        gate_rec: tile_rectangle(GATE_INDEX, tile_size(map), image_size(map)),
    })
    &&& built.tileset_image == map.tilesets@[0].images@[0].source@
}

impl View for GameMap {
    type V = MapView;

    closed spec fn view(&self) -> MapView {
        MapView {
            layers: self.layers@,
            grid: grid_view(self.grid),
            gate: self.gate@,
            tileset_image: self.tileset_image@,
        }
    }
}

impl GameMap {
    /// The classes of the tiles of one layer.
    pub fn classify_rows(tiles: &Vec<Vec<u32>>) -> (grid: GridMap)
        ensures
            grid_view(grid) == classified(rows_of(*tiles)),
    {
        let mut grid: GridMap = Vec::new();
        let mut y: usize = 0;
        while y < tiles.len()
            invariant
                0 <= y <= tiles@.len(),
                grid@.len() == y,
                forall|j: int| 0 <= j < y ==> (#[trigger] grid@[j])@ == classified(rows_of(*tiles))[j],
            decreases tiles.len() - y,
        {
            let row = &tiles[y];
            let mut classes: Vec<Grid> = Vec::new();
            let mut x: usize = 0;
            while x < row.len()
                invariant
                    0 <= x <= row@.len(),
                    classes@.len() == x,
                    forall|i: int| 0 <= i < x ==> #[trigger] classes@[i] == class_of(row@[i]),
                decreases row.len() - x,
            {
                classes.push(classify(row[x]));
                x = x + 1;
            }
            assert(classes@ =~= classified(rows_of(*tiles))[y as int]);
            grid.push(classes);
            y = y + 1;
        }
        assert(grid_view(grid) =~= classified(rows_of(*tiles)));
        grid
    }

    /// Lays the grid `b` over the grid `a`.
    pub fn join(a: &GridMap, b: &GridMap) -> (new_grid: GridMap)
        ensures
            grid_view(new_grid) == joined(grid_view(*a), grid_view(*b)),
    {
        let max_y = longer(a.len(), b.len());
        let mut new_grid: GridMap = Vec::new();
        let mut y: usize = 0;
        while y < max_y
            invariant
                0 <= y <= max_y,
                max_y == larger(a@.len(), b@.len()),
                new_grid@.len() == y,
                forall|j: int|
                    0 <= j < y ==> (#[trigger] new_grid@[j])@ == joined(
                        grid_view(*a),
                        grid_view(*b),
                    )[j],
            decreases max_y - y,
        {
            let max_x = longer(row_length(a, y), row_length(b, y));
            let mut row: Vec<Grid> = Vec::new();
            let mut x: usize = 0;
            while x < max_x
                invariant
                    0 <= x <= max_x,
                    row@.len() == x,
                    forall|i: int|
                        0 <= i < x ==> #[trigger] row@[i] == cell_at(
                            grid_view(*a),
                            i,
                            y as int,
                        ).merged(cell_at(grid_view(*b), i, y as int)),
                decreases max_x - x,
            {
                let grid_a = cell_or_empty(a, x, y);
                let grid_b = cell_or_empty(b, x, y);
                row.push(grid_a.merge(grid_b));
                x = x + 1;
            }
            assert(row@ =~= joined(grid_view(*a), grid_view(*b))[y as int]);
            new_grid.push(row);
            y = y + 1;
        }
        assert(grid_view(new_grid) =~= joined(grid_view(*a), grid_view(*b)));
        new_grid
    }

    /// The walkability grid of the layers: each classified, and all laid
    /// over each other from the bottom layer up.
    pub fn to_grid(layers: &Vec<GameLayer>) -> (grid: GridMap)
        ensures
            grid_view(grid) == merged_grid(layer_rows(layers@)),
    {
        let ghost rows = layer_rows(layers@);
        let mut grid: GridMap = Vec::new();
        let mut i: usize = 0;
        assert(grid_view(grid) =~= merged_grid(rows.subrange(0, 0)));
        while i < layers.len()
            invariant
                0 <= i <= layers@.len(),
                rows == layer_rows(layers@),
                grid_view(grid) == merged_grid(rows.subrange(0, i as int)),
            decreases layers.len() - i,
        {
            let classes = Self::classify_rows(&layers[i].tiles);
            proof {
                let upto = rows.subrange(0, i + 1);
                assert(upto.drop_last() =~= rows.subrange(0, i as int));
                assert(upto.last() == layers@[i as int].rows());
            }
            grid = Self::join(&grid, &classes);
            i = i + 1;
        }
        assert(rows.subrange(0, rows.len() as int) =~= rows);
        grid
    }

    /// The sheet rectangle of a tile, if there is a tile.
    pub fn to_rectangle(tile_index: u32, tile: &Dimension, image: &Dimension) -> (r: Option<
        Rectangle,
    >)
        requires
            sheet_has_tiles(*tile, *image),
        ensures
            r == source_of(tile_index, *tile, *image),
    {
        match tile_index {
            0 => None,
            _ => Some(Gate::to_rectangle(tile_index, tile, image)),
        }
    }

    /// The layer named `name` with the tiles `tiles`, each with its sheet
    /// rectangle.
    pub fn to_game_layer(
        name: &String,
        tiles: &Vec<Vec<u32>>,
        tile: &Dimension,
        image: &Dimension,
    ) -> (layer: GameLayer)
        requires
            sheet_has_tiles(*tile, *image),
        ensures
            is_layer_of(layer, name@, rows_of(*tiles), *tile, *image),
    {
        let ghost rows = rows_of(*tiles);
        let mut copied: Vec<Vec<u32>> = Vec::new();
        let mut rectangles: Vec<Vec<Option<Rectangle>>> = Vec::new();
        let mut y: usize = 0;
        while y < tiles.len()
            invariant
                0 <= y <= tiles@.len(),
                rows == rows_of(*tiles),
                sheet_has_tiles(*tile, *image),
                copied@.len() == y,
                rectangles@.len() == y,
                forall|j: int| 0 <= j < y ==> (#[trigger] copied@[j])@ == rows[j],
                forall|j: int|
                    0 <= j < y ==> (#[trigger] rectangles@[j])@ == Seq::new(
                        rows[j].len(),
                        |x: int| source_of(rows[j][x], *tile, *image),
                    ),
            decreases tiles.len() - y,
        {
            let row = &tiles[y];
            let mut numbers: Vec<u32> = Vec::new();
            let mut sources: Vec<Option<Rectangle>> = Vec::new();
            let mut x: usize = 0;
            while x < row.len()
                invariant
                    0 <= x <= row@.len(),
                    sheet_has_tiles(*tile, *image),
                    numbers@.len() == x,
                    sources@.len() == x,
                    forall|i: int| 0 <= i < x ==> #[trigger] numbers@[i] == row@[i],
                    forall|i: int|
                        0 <= i < x ==> #[trigger] sources@[i] == source_of(row@[i], *tile, *image),
                decreases row.len() - x,
            {
                numbers.push(row[x]);
                sources.push(Self::to_rectangle(row[x], tile, image));
                x = x + 1;
            }
            assert(numbers@ =~= rows[y as int]);
            assert(sources@ =~= Seq::new(
                rows[y as int].len(),
                |x: int| source_of(rows[y as int][x], *tile, *image),
            ));
            copied.push(numbers);
            rectangles.push(sources);
            y = y + 1;
        }
        let layer = GameLayer { name: name.clone(), tiles: copied, rectangles };
        assert(layer.rows() =~= rows);
        assert(layer.sources() =~= Seq::new(
            rows.len(),
            |y: int| Seq::new(rows[y].len(), |x: int| source_of(rows[y][x], *tile, *image)),
        ));
        layer
    }

    /// The map of a level made from a tile map, with a shut gate whose top
    /// cell is `gate_position`. The tiles are cut from the first image of
    /// the first tileset.
    pub fn new(map: &TileMap, gate_position: Position) -> (made: Result<GameMap, MapParseError>)
        ensures
            match made {
                Ok(game_map) => rejection(*map) is None && is_map_of(
                    game_map@,
                    *map,
                    gate_position,
                ),
                Err(error) => rejection(*map) == Some(error),
            },
    {
        if map.tilesets.len() == 0 {
            return Err(MapParseError::MissingTileset);
        }
        let tileset = &map.tilesets[0];
        if tileset.images.len() == 0 {
            return Err(MapParseError::MissingImage);
        }
        let image = &tileset.images[0];
        if image.width < 0 || image.height < 0 {
            return Err(MapParseError::InvalidDimensions);
        }
        let tile_dimension = Dimension::new(map.tile_width, map.tile_height);
        let image_dimension = Dimension::new(image.width as u32, image.height as u32);
        if tile_dimension.width == 0 || tile_dimension.height == 0 || image_dimension.width
            < tile_dimension.width || image_dimension.width < tile_dimension.height {
            return Err(MapParseError::InvalidDimensions);
        }
        let mut layers: Vec<GameLayer> = Vec::new();
        let mut i: usize = 0;
        while i < map.layers.len()
            invariant
                0 <= i <= map.layers@.len(),
                map.tilesets@.len() > 0,
                map.tilesets@[0].images@.len() > 0,
                map.tilesets@[0].images@[0].width >= 0,
                map.tilesets@[0].images@[0].height >= 0,
                tile_dimension == tile_size(*map),
                image_dimension == image_size(*map),
                sheet_has_tiles(tile_dimension, image_dimension),
                layers@.len() == i,
                forall|j: int| 0 <= j < i ==> !((#[trigger] map.layers@[j]).tiles is Infinite),
                forall|j: int|
                    0 <= j < i ==> is_layer_of(
                        #[trigger] layers@[j],
                        map.layers@[j].name@,
                        map.layers@[j].rows(),
                        tile_dimension,
                        image_dimension,
                    ),
            decreases map.layers.len() - i,
        {
            let layer = &map.layers[i];
            match &layer.tiles {
                LayerData::Finite(tiles) => {
                    let game_layer = Self::to_game_layer(
                        &layer.name,
                        tiles,
                        &tile_dimension,
                        &image_dimension,
                    );
                    layers.push(game_layer);
                },
                LayerData::Infinite => {
                    assert(map.layers@[i as int].tiles is Infinite);
                    return Err(MapParseError::InfiniteLayer);
                },
            }
            i = i + 1;
        }
        let grid: GridMap = Self::to_grid(&layers);
        let gate: Gate = Gate::new(gate_position, tile_dimension, image_dimension);
        let game_map = GameMap { layers, grid, gate, tileset_image: image.source.clone() };
        assert(layer_rows(game_map.layers@) =~= source_rows(*map));
        Ok(game_map)
    }

    /// Opens the door. An open gate stays open.
    pub fn open_gate(&mut self)
        ensures
            final(self)@ == old(self)@.opened(),
    {
        self.gate.open();
    }

    /// The top cell of the door.
    pub fn gate_position(&self) -> (position: Position)
        ensures
            position == self@.gate.position,
    {
        self.gate.position()
    }

    /// Whether the door is open.
    pub fn is_gate_open(&self) -> (open: bool)
        ensures
            open == (self@.gate.state == State::Opened),
    {
        !self.gate.is_close()
    }

    /// The file of the tile sheet, as the tile map names it.
    pub fn tileset_image(&self) -> (source: &String)
        ensures
            source@ == self@.tileset_image,
    {
        &self.tileset_image
    }

    /// Whether the player can stand on the cell: it lies in the grid, the
    /// layers make it floor, and the door is not shut across it.
    pub fn can_walk_to(&self, position: &Position) -> (walkable: bool)
        ensures
            walkable == self@.walkable(*position),
    {
        let x = position.x as usize;
        let y = position.y as usize;
        if self.grid.len() <= y || self.grid[y].len() <= x {
            return false;
        }
        match self.grid[y][x] {
            Grid::Path => !self.gate.is_gate(position.x, position.y),
            Grid::NonPath => false,
            Grid::Empty => false,
        }
    }

    /// The tiles to draw for the map: the layers from the bottom up, then
    /// the door.
    pub fn draw(&self) -> (sprites: Vec<TileSprite>)
        ensures
            sprites@ == self@.sprites(),
    {
        let mut sprites: Vec<TileSprite> = Vec::new();
        let mut i: usize = 0;
        while i < self.layers.len()
            invariant
                0 <= i <= self.layers@.len(),
                sprites@ == layers_sprites(self.layers@, i as int),
            decreases self.layers.len() - i,
        {
            let mut layer_sprites = self.layers[i].draw();
            sprites.append(&mut layer_sprites);
            i = i + 1;
        }
        let mut gate_sprites = self.gate.draw();
        sprites.append(&mut gate_sprites);
        sprites
    }
}

/// No cell outside the grid can be walked on.
pub proof fn outside_the_grid_nothing_is_walkable(map: MapView, p: Position)
    requires
        !has_cell(map.grid, p.x as int, p.y as int),
    ensures
        !map.walkable(p),
{
}

/// While the door is shut, none of its three cells can be walked on,
/// whatever the layers make of them.
pub proof fn shut_door_blocks_its_cells(map: MapView, p: Position)
    requires
        map.gate.state == State::Closed,
        p.x == map.gate.position.x,
        p.y == map.gate.position.y || p.y == map.gate.position.y + 1 || p.y == map.gate.position.y
            + 2,
    ensures
        !map.walkable(p),
{
}

/// Once the door has been opened, whether a cell can be walked on is
/// decided by the layers alone, on the cells of the door as on all others.
pub proof fn open_door_blocks_nothing(map: MapView, p: Position)
    ensures
        map.opened().walkable(p) == map.on_path(p),
        map.opened().on_path(p) == map.on_path(p),
{
}

/// Opening the door a second time changes nothing.
pub proof fn opening_twice_is_opening_once(map: MapView)
    ensures
        map.opened().opened() == map.opened(),
        map.gate.state == State::Opened ==> map.opened() == map,
{
}

/// Nothing that can be walked on before the door is opened is blocked
/// afterwards.
pub proof fn opening_keeps_what_is_walkable(map: MapView, p: Position)
    requires
        map.walkable(p),
    ensures
        map.opened().walkable(p),
{
}

/// The class of the cell `(x, y)` in the layer with the tiles `rows`; a
/// cell that the layer does not have is empty.
pub open spec fn layer_class(rows: Seq<Seq<u32>>, x: int, y: int) -> Grid {
    cell_at(classified(rows), x, y)
}

/// The walkability grid has as many rows as the layer with the most rows:
/// no layer has more, and unless the grid has none, some layer has as many.
pub proof fn merged_grid_rows(layers: Seq<Seq<Seq<u32>>>)
    ensures
        forall|i: int|
            0 <= i < layers.len() ==> (#[trigger] layers[i]).len() <= merged_grid(layers).len(),
        merged_grid(layers).len() > 0 ==> exists|i: int|
            0 <= i < layers.len() && (#[trigger] layers[i]).len() == merged_grid(layers).len(),
    decreases layers.len(),
{
    if layers.len() > 0 {
        let below = layers.drop_last();
        merged_grid_rows(below);
        assert forall|i: int| 0 <= i < layers.len() implies (#[trigger] layers[i]).len()
            <= merged_grid(layers).len() by {
            if i < below.len() {
                assert(below[i] == layers[i]);
            }
        }
        if merged_grid(layers).len() > 0 {
            if merged_grid(layers).len() == layers.last().len() {
                assert(layers[layers.len() - 1].len() == merged_grid(layers).len());
            } else {
                let i = choose|i: int|
                    0 <= i < below.len() && (#[trigger] below[i]).len() == merged_grid(
                        below,
                    ).len();
                assert(layers[i] == below[i]);
            }
        }
    }
}

/// Row `y` of the walkability grid is as long as the longest row `y` of a
/// layer: no layer has a longer one, and unless the row is empty, some layer
/// has one as long.
pub proof fn merged_grid_columns(layers: Seq<Seq<Seq<u32>>>, y: int)
    ensures
        forall|i: int|
            0 <= i < layers.len() ==> row_len(classified(#[trigger] layers[i]), y) <= row_len(
                merged_grid(layers),
                y,
            ),
        row_len(merged_grid(layers), y) > 0 ==> exists|i: int|
            0 <= i < layers.len() && row_len(classified(#[trigger] layers[i]), y) == row_len(
                merged_grid(layers),
                y,
            ),
    decreases layers.len(),
{
    if layers.len() > 0 {
        let below = layers.drop_last();
        merged_grid_columns(below, y);
        let merged = merged_grid(layers);
        assert(row_len(merged, y) == larger(
            row_len(merged_grid(below), y),
            row_len(classified(layers.last()), y),
        ));
        assert forall|i: int| 0 <= i < layers.len() implies row_len(
            classified(#[trigger] layers[i]),
            y,
        ) <= row_len(merged, y) by {
            if i < below.len() {
                assert(below[i] == layers[i]);
            }
        }
        if row_len(merged, y) > 0 {
            if row_len(merged, y) == row_len(classified(layers.last()), y) {
                assert(row_len(classified(layers[layers.len() - 1]), y) == row_len(merged, y));
            } else {
                let i = choose|i: int|
                    0 <= i < below.len() && row_len(classified(#[trigger] below[i]), y) == row_len(
                        merged_grid(below),
                        y,
                    );
                assert(layers[i] == below[i]);
            }
        }
    }
}

/// A cell of the walkability grid is an obstacle if it is one in some
/// layer; else it is floor if it is floor in some layer; else it is empty.
pub proof fn merged_grid_cell(layers: Seq<Seq<Seq<u32>>>, x: int, y: int)
    ensures
        cell_at(merged_grid(layers), x, y) == Grid::NonPath <==> exists|i: int|
            0 <= i < layers.len() && layer_class(#[trigger] layers[i], x, y) == Grid::NonPath,
        cell_at(merged_grid(layers), x, y) == Grid::Empty <==> forall|i: int|
            0 <= i < layers.len() ==> layer_class(#[trigger] layers[i], x, y) == Grid::Empty,
    decreases layers.len(),
{
    if layers.len() > 0 {
        let below = layers.drop_last();
        let top = layers.last();
        merged_grid_cell(below, x, y);
        let under = cell_at(merged_grid(below), x, y);
        let over = layer_class(top, x, y);
        assert(cell_at(merged_grid(layers), x, y) == under.merged(over)) by {
            if !has_cell(merged_grid(layers), x, y) {
                assert(!has_cell(merged_grid(below), x, y));
                assert(!has_cell(classified(top), x, y));
            }
        }
        assert(layers[layers.len() - 1] == top);
        assert forall|i: int| 0 <= i < below.len() implies below[i] == layers[i] by {}
        if under == Grid::NonPath {
            let i = choose|i: int|
                0 <= i < below.len() && layer_class(#[trigger] below[i], x, y) == Grid::NonPath;
            assert(layers[i] == below[i]);
        }
        if exists|i: int|
            0 <= i < layers.len() && layer_class(#[trigger] layers[i], x, y) == Grid::NonPath {
            let i = choose|i: int|
                0 <= i < layers.len() && layer_class(#[trigger] layers[i], x, y) == Grid::NonPath;
            if i < below.len() {
                assert(below[i] == layers[i]);
            }
        }
        if under != Grid::Empty {
            let i = choose|i: int|
                0 <= i < below.len() && layer_class(#[trigger] below[i], x, y) != Grid::Empty;
            assert(layers[i] == below[i]);
        }
        if under == Grid::Empty && over == Grid::Empty {
            assert forall|i: int| 0 <= i < layers.len() implies layer_class(
                #[trigger] layers[i],
                x,
                y,
            ) == Grid::Empty by {
                if i < below.len() {
                    assert(below[i] == layers[i]);
                }
            }
        }
    }
}

/// Every tile of the first `n` layers is drawn at the depth of the map.
proof fn lemma_layers_depth(layers: Seq<GameLayer>, n: int)
    requires
        n <= layers.len(),
    ensures
        forall|i: int|
            0 <= i < layers_sprites(layers, n).len() ==> (#[trigger] layers_sprites(layers, n)[i]).z
                == MAP_Z,
    decreases n,
{
    if n > 0 {
        lemma_layers_depth(layers, n - 1);
        layer_is_drawn_at_map_depth(layers[n - 1]);
        let before = layers_sprites(layers, n - 1);
        let layer = layers[n - 1].sprites();
        let now = layers_sprites(layers, n);
        assert forall|i: int| 0 <= i < now.len() implies (#[trigger] now[i]).z == MAP_Z by {
            if i < before.len() {
                assert(now[i] == before[i]);
            } else {
                assert(now[i] == layer[i - before.len()]);
            }
        }
    }
}

/// The tiles of the layers are drawn at the depth of the map, and after
/// them the tiles of the door at its own.
pub proof fn map_is_drawn_below_its_door(map: MapView)
    ensures
        ({
            let ground = layers_sprites(map.layers, map.layers.len() as int).len();
            forall|i: int|
                0 <= i < map.sprites().len() ==> (#[trigger] map.sprites()[i]).z == if i < ground {
                    MAP_Z
                } else {
                    GATE_Z
                }
        }),
{
    lemma_layers_depth(map.layers, map.layers.len() as int);
    let ground = layers_sprites(map.layers, map.layers.len() as int);
    let door = map.gate.sprites();
    assert forall|i: int| 0 <= i < map.sprites().len() implies (#[trigger] map.sprites()[i]).z
        == if i < ground.len() {
        MAP_Z
    } else {
        GATE_Z
    } by {
        if i < ground.len() {
            assert(map.sprites()[i] == ground[i]);
        } else {
            assert(map.sprites()[i] == door[i - ground.len()]);
        }
    }
}

} // verus!
