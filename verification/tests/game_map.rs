use roborex::game_layer::GameLayer;
use roborex::game_map::{classify, is_path_tile, GameMap, MapParseError};
use roborex::geom::Rectangle;
use roborex::grid::Grid;
use roborex::primitive::{Dimension, Position};
use roborex::render::TileSprite;
use roborex::tile_map::{LayerData, TileImage, TileLayer, TileMap, Tileset};

const FLOOR: u32 = 197;
const WALL: u32 = 5;

fn image(width: i32, height: i32) -> TileImage {
    TileImage { source: "tiles.png".to_string(), width, height }
}

fn layer(name: &str, rows: Vec<Vec<u32>>) -> TileLayer {
    TileLayer { name: name.to_string(), tiles: LayerData::Finite(rows) }
}

fn tile_map(layers: Vec<TileLayer>) -> TileMap {
    TileMap {
        tile_width: 16,
        tile_height: 16,
        tilesets: vec![Tileset { images: vec![image(400, 400)] }],
        layers,
    }
}

fn floor(width: usize, height: usize) -> Vec<Vec<u32>> {
    vec![vec![FLOOR; width]; height]
}

fn game_layer(rows: Vec<Vec<u32>>) -> GameLayer {
    GameLayer { name: "layer".to_string(), tiles: rows, rectangles: vec![] }
}

fn level_map() -> GameMap {
    GameMap::new(&tile_map(vec![layer("ground", floor(26, 17))]), Position::new(24, 13)).unwrap()
}

#[test]
fn tiles_are_classified() {
    assert_eq!(classify(0), Grid::Empty);
    assert_eq!(classify(197), Grid::Path);
    assert_eq!(classify(1), Grid::NonPath);
    assert_eq!(classify(214), Grid::NonPath);
    assert_eq!(classify(u32::MAX), Grid::NonPath);
}

#[test]
fn floor_tiles_are_exactly_the_listed_ones() {
    let listed = [
        197, 196, 221, 271, 246, 248, 269, 268, 270, 277, 278, 279, 280, 256, 228, 229, 230, 231,
        232, 233, 234, 154, 155, 160, 161,
    ];
    for tile in 0..400u32 {
        assert_eq!(is_path_tile(tile), listed.contains(&tile), "tile {}", tile);
    }
    assert!(!is_path_tile(u32::MAX));
}

#[test]
fn rows_of_a_layer_are_classified_cell_by_cell() {
    let grid = GameMap::classify_rows(&vec![vec![0, 197, 5], vec![], vec![154]]);
    assert_eq!(
        grid,
        vec![vec![Grid::Empty, Grid::Path, Grid::NonPath], vec![], vec![Grid::Path]]
    );
}

#[test]
fn join_takes_the_larger_size_and_merges_the_cells() {
    let a = vec![vec![Grid::Path, Grid::Path, Grid::Empty], vec![Grid::NonPath]];
    let b = vec![vec![Grid::Empty, Grid::NonPath], vec![Grid::Path, Grid::Path], vec![Grid::Path]];
    assert_eq!(
        GameMap::join(&a, &b),
        vec![
            vec![Grid::Path, Grid::NonPath, Grid::Empty],
            vec![Grid::NonPath, Grid::Path],
            vec![Grid::Path],
        ]
    );
}

#[test]
fn join_with_an_empty_grid_changes_nothing() {
    let a = vec![vec![Grid::Path, Grid::NonPath], vec![Grid::Empty]];
    assert_eq!(GameMap::join(&a, &vec![]), a);
    assert_eq!(GameMap::join(&vec![], &a), a);
    assert_eq!(GameMap::join(&vec![], &vec![]), Vec::<Vec<Grid>>::new());
}

#[test]
fn grid_of_no_layers_is_empty() {
    assert_eq!(GameMap::to_grid(&vec![]), Vec::<Vec<Grid>>::new());
}

#[test]
fn grid_of_one_layer_is_the_layer_classified() {
    let grid = GameMap::to_grid(&vec![game_layer(vec![vec![197, 0], vec![5]])]);
    assert_eq!(grid, vec![vec![Grid::Path, Grid::Empty], vec![Grid::NonPath]]);
}

#[test]
fn obstacles_of_an_upper_layer_override_the_floor() {
    let ground = game_layer(vec![vec![197, 197, 197], vec![197, 197, 197]]);
    let trees = game_layer(vec![vec![0, 5, 0]]);
    let more = game_layer(vec![vec![0, 0, 0, 0], vec![0, 0, 196], vec![7]]);
    assert_eq!(
        GameMap::to_grid(&vec![ground, trees, more]),
        vec![
            vec![Grid::Path, Grid::NonPath, Grid::Path, Grid::Empty],
            vec![Grid::Path, Grid::Path, Grid::Path],
            vec![Grid::NonPath],
        ]
    );
}

#[test]
fn floor_of_an_upper_layer_does_not_clear_an_obstacle() {
    let ground = game_layer(vec![vec![5]]);
    let rug = game_layer(vec![vec![197]]);
    assert_eq!(GameMap::to_grid(&vec![ground, rug]), vec![vec![Grid::NonPath]]);
}

#[test]
fn sheet_rectangle_of_no_tile_is_none() {
    let tile = Dimension::new(16, 16);
    let image = Dimension::new(400, 400);
    assert_eq!(GameMap::to_rectangle(0, &tile, &image), None);
    assert_eq!(
        GameMap::to_rectangle(27, &tile, &image),
        Some(Rectangle::new((16, 16), (16, 16)))
    );
}

#[test]
fn game_layer_keeps_name_tiles_and_rectangles() {
    let tiles = vec![vec![0, 27], vec![214]];
    let made = GameMap::to_game_layer(
        &"trees".to_string(),
        &tiles,
        &Dimension::new(16, 16),
        &Dimension::new(400, 400),
    );
    assert_eq!(made.name, "trees");
    assert_eq!(made.tiles, tiles);
    assert_eq!(
        made.rectangles,
        vec![
            vec![None, Some(Rectangle::new((16, 16), (16, 16)))],
            vec![Some(Rectangle::new((208, 128), (16, 16)))],
        ]
    );
}

#[test]
fn cells_outside_the_grid_are_not_walkable() {
    let map = level_map();
    assert!(map.can_walk_to(&Position::new(25, 16)));
    assert!(!map.can_walk_to(&Position::new(26, 0)));
    assert!(!map.can_walk_to(&Position::new(0, 17)));
    assert!(!map.can_walk_to(&Position::new(u32::MAX, u32::MAX)));
    assert!(!map.can_walk_to(&Position::new(u32::MAX, 0)));
    assert!(!map.can_walk_to(&Position::new(0, u32::MAX)));
}

#[test]
fn cells_beyond_a_short_row_are_not_walkable() {
    let map = GameMap::new(
        &tile_map(vec![layer("ground", vec![vec![FLOOR; 4], vec![FLOOR; 2]])]),
        Position::new(9, 9),
    )
    .unwrap();
    assert!(map.can_walk_to(&Position::new(3, 0)));
    assert!(map.can_walk_to(&Position::new(1, 1)));
    assert!(!map.can_walk_to(&Position::new(2, 1)));
    assert!(!map.can_walk_to(&Position::new(3, 1)));
}

#[test]
fn only_floor_is_walkable() {
    let map = GameMap::new(
        &tile_map(vec![layer("ground", vec![vec![FLOOR, WALL, 0]])]),
        Position::new(9, 9),
    )
    .unwrap();
    assert!(map.can_walk_to(&Position::new(0, 0)));
    assert!(!map.can_walk_to(&Position::new(1, 0)));
    assert!(!map.can_walk_to(&Position::new(2, 0)));
}

#[test]
fn closed_gate_blocks_its_three_cells() {
    let map = level_map();
    assert!(!map.is_gate_open());
    assert_eq!(map.gate_position(), Position::new(24, 13));
    assert!(!map.can_walk_to(&Position::new(24, 13)));
    assert!(!map.can_walk_to(&Position::new(24, 14)));
    assert!(!map.can_walk_to(&Position::new(24, 15)));
    assert!(map.can_walk_to(&Position::new(24, 12)));
    assert!(map.can_walk_to(&Position::new(24, 16)));
    assert!(map.can_walk_to(&Position::new(23, 13)));
    assert!(map.can_walk_to(&Position::new(25, 13)));
}

#[test]
fn open_gate_leaves_walkability_to_the_tiles() {
    let mut rows = floor(26, 17);
    rows[14][24] = WALL;
    rows[15][24] = 0;
    let mut map =
        GameMap::new(&tile_map(vec![layer("ground", rows)]), Position::new(24, 13)).unwrap();
    assert!(!map.can_walk_to(&Position::new(24, 13)));
    map.open_gate();
    assert!(map.is_gate_open());
    assert!(map.can_walk_to(&Position::new(24, 13)));
    assert!(!map.can_walk_to(&Position::new(24, 14)));
    assert!(!map.can_walk_to(&Position::new(24, 15)));
    assert!(map.can_walk_to(&Position::new(23, 13)));
    assert!(!map.can_walk_to(&Position::new(26, 13)));
}

#[test]
fn opening_the_gate_twice_is_opening_it_once() {
    let mut map = level_map();
    map.open_gate();
    let once: Vec<bool> =
        (0..30).map(|y| map.can_walk_to(&Position::new(24, y))).collect();
    map.open_gate();
    let twice: Vec<bool> =
        (0..30).map(|y| map.can_walk_to(&Position::new(24, y))).collect();
    assert_eq!(once, twice);
    assert!(map.is_gate_open());
    assert_eq!(map.gate_position(), Position::new(24, 13));
}

#[test]
fn map_keeps_the_file_of_its_tile_sheet() {
    assert_eq!(level_map().tileset_image(), "tiles.png");
}

#[test]
fn map_without_a_tileset_is_refused() {
    let mut map = tile_map(vec![layer("ground", floor(2, 2))]);
    map.tilesets = vec![];
    assert_eq!(GameMap::new(&map, Position::new(0, 0)).unwrap_err(), MapParseError::MissingTileset);
}

#[test]
fn map_without_a_tileset_image_is_refused() {
    let mut map = tile_map(vec![layer("ground", floor(2, 2))]);
    map.tilesets = vec![Tileset { images: vec![] }, Tileset { images: vec![image(400, 400)] }];
    assert_eq!(GameMap::new(&map, Position::new(0, 0)).unwrap_err(), MapParseError::MissingImage);
}

#[test]
fn map_with_impossible_sizes_is_refused() {
    let good = tile_map(vec![layer("ground", floor(2, 2))]);

    let mut map = good.clone();
    map.tile_width = 0;
    assert_eq!(
        GameMap::new(&map, Position::new(0, 0)).unwrap_err(),
        MapParseError::InvalidDimensions
    );

    let mut map = good.clone();
    map.tile_height = 0;
    assert_eq!(
        GameMap::new(&map, Position::new(0, 0)).unwrap_err(),
        MapParseError::InvalidDimensions
    );

    let mut map = good.clone();
    map.tilesets = vec![Tileset { images: vec![image(-400, 400)] }];
    assert_eq!(
        GameMap::new(&map, Position::new(0, 0)).unwrap_err(),
        MapParseError::InvalidDimensions
    );

    let mut map = good.clone();
    map.tilesets = vec![Tileset { images: vec![image(400, -1)] }];
    assert_eq!(
        GameMap::new(&map, Position::new(0, 0)).unwrap_err(),
        MapParseError::InvalidDimensions
    );

    let mut map = good.clone();
    map.tilesets = vec![Tileset { images: vec![image(15, 400)] }];
    assert_eq!(
        GameMap::new(&map, Position::new(0, 0)).unwrap_err(),
        MapParseError::InvalidDimensions
    );

    let mut map = good.clone();
    map.tile_height = 401;
    assert_eq!(
        GameMap::new(&map, Position::new(0, 0)).unwrap_err(),
        MapParseError::InvalidDimensions
    );
}

#[test]
fn map_with_the_smallest_sheet_is_accepted() {
    let mut map = tile_map(vec![layer("ground", floor(2, 2))]);
    map.tilesets = vec![Tileset { images: vec![image(16, 0)] }];
    assert!(GameMap::new(&map, Position::new(0, 0)).is_ok());
}

#[test]
fn map_with_a_layer_without_bounds_is_refused() {
    let map = tile_map(vec![
        layer("ground", floor(2, 2)),
        TileLayer { name: "sky".to_string(), tiles: LayerData::Infinite },
    ]);
    assert_eq!(
        GameMap::new(&map, Position::new(0, 0)).unwrap_err(),
        MapParseError::InfiniteLayer
    );
}

#[test]
fn errors_are_reported_in_a_fixed_order() {
    let mut map = tile_map(vec![TileLayer { name: "sky".to_string(), tiles: LayerData::Infinite }]);
    map.tile_width = 0;
    assert_eq!(
        GameMap::new(&map, Position::new(0, 0)).unwrap_err(),
        MapParseError::InvalidDimensions
    );
    map.tilesets = vec![Tileset { images: vec![] }];
    assert_eq!(GameMap::new(&map, Position::new(0, 0)).unwrap_err(), MapParseError::MissingImage);
    map.tilesets = vec![];
    assert_eq!(GameMap::new(&map, Position::new(0, 0)).unwrap_err(), MapParseError::MissingTileset);
}

#[test]
fn map_without_layers_has_an_empty_grid() {
    let map = GameMap::new(&tile_map(vec![]), Position::new(0, 0)).unwrap();
    assert!(!map.can_walk_to(&Position::new(0, 0)));
    assert_eq!(map.draw().len(), 3);
}

#[test]
fn map_is_drawn_layer_by_layer_and_then_its_gate() {
    let map = GameMap::new(
        &tile_map(vec![layer("ground", vec![vec![197, 0], vec![0, 27]]), layer("top", vec![vec![214]])]),
        Position::new(1, 0),
    )
    .unwrap();
    let gate_source = Rectangle::new((208, 128), (16, 16));
    assert_eq!(
        map.draw(),
        vec![
            TileSprite {
                area: Rectangle::new((8, 8), (16, 16)),
                source: Rectangle::new((336, 112), (16, 16)),
                scale: 2,
                z: 1,
            },
            TileSprite {
                area: Rectangle::new((40, 40), (16, 16)),
                source: Rectangle::new((16, 16), (16, 16)),
                scale: 2,
                z: 1,
            },
            TileSprite { area: Rectangle::new((8, 8), (16, 16)), source: gate_source, scale: 2, z: 1 },
            TileSprite { area: Rectangle::new((40, 8), (16, 16)), source: gate_source, scale: 2, z: 11 },
            TileSprite { area: Rectangle::new((40, 40), (16, 16)), source: gate_source, scale: 2, z: 11 },
            TileSprite { area: Rectangle::new((40, 72), (16, 16)), source: gate_source, scale: 2, z: 11 },
        ]
    );
}

#[test]
fn open_gate_is_left_out_of_the_drawing() {
    let mut map =
        GameMap::new(&tile_map(vec![layer("ground", vec![vec![197]])]), Position::new(1, 0)).unwrap();
    assert_eq!(map.draw().len(), 4);
    map.open_gate();
    assert_eq!(map.draw().len(), 1);
}

#[test]
fn layer_is_drawn_row_by_row() {
    let source = Rectangle::new((0, 0), (16, 16));
    let layer = GameLayer {
        name: "ground".to_string(),
        tiles: vec![],
        rectangles: vec![vec![None, Some(source)], vec![], vec![Some(source), None, Some(source)]],
    };
    let areas: Vec<(i64, i64)> =
        layer.draw().iter().map(|sprite| (sprite.area.pos.x, sprite.area.pos.y)).collect();
    assert_eq!(areas, vec![(40, 8), (8, 72), (72, 72)]);
    assert!(layer.draw().iter().all(|sprite| sprite.source == source && sprite.z == 1));
}
