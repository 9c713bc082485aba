use roborex::direction::Direction;
use roborex::game::{GameState, RoboRex};
use roborex::game_map::MapParseError;
use roborex::geom::Vector;
use roborex::input::Input;
use roborex::player_state::PlayerState;
use roborex::primitive::Position;
use roborex::puzzle::Sounds;
use roborex::tile_map::{LayerData, TileImage, TileLayer, TileMap, Tileset};

fn open_field() -> TileMap {
    TileMap {
        tile_width: 16,
        tile_height: 16,
        tilesets: vec![Tileset {
            images: vec![TileImage { source: "tiles.png".to_string(), width: 400, height: 400 }],
        }],
        layers: vec![TileLayer {
            name: "ground".to_string(),
            tiles: LayerData::Finite(vec![vec![197; 26]; 17]),
        }],
    }
}

fn click_on(x: u32, y: u32) -> Input {
    let mut input = Input::idle(300);
    input.released = Some(Vector::new(x as i64 * 32 + 16, y as i64 * 32 + 16));
    input
}

fn playing() -> RoboRex {
    let mut game = RoboRex::new();
    let mut input = Input::idle(16);
    input.enter = true;
    game.update(&input);
    game.load_map(&open_field()).unwrap();
    game
}

fn settle(game: &mut RoboRex) {
    for _ in 0..200 {
        if !game.player().is_walking() {
            return;
        }
        game.update(&Input::idle(300));
    }
    panic!("the player did not come to a halt");
}

fn go_to(game: &mut RoboRex, x: u32, y: u32) {
    let level = game.level().index();
    let from = game.player().position;
    if from.x != x {
        game.update(&click_on(x, from.y));
        settle(game);
    }
    if game.level().index() == level && game.player().position.y != y {
        game.update(&click_on(x, y));
        settle(game);
    }
}

fn clear_first_level(game: &mut RoboRex) {
    for (x, y) in [(5, 7), (10, 12), (18, 7), (17, 11), (22, 11)] {
        go_to(game, x, y);
        assert_eq!(game.player().position, Position::new(x, y));
    }
}

#[test]
fn game_begins_on_the_splash_screen() {
    let game = RoboRex::new();
    assert_eq!(game.state(), GameState::Splash);
    assert_eq!(game.level().index(), 0);
    assert_eq!(game.player().position, Position::new(0, 14));
    assert_eq!(game.player().state(), PlayerState::Standing(Direction::Right));
    assert!(game.draw().is_none());
}

#[test]
fn splash_screen_ignores_the_arrow_keys() {
    let mut game = RoboRex::new();
    game.load_map(&open_field()).unwrap();
    let mut input = Input::idle(300);
    input.right = true;
    for _ in 0..10 {
        assert_eq!(game.update(&input), Sounds { instruction: false, word: false });
    }
    assert_eq!(game.state(), GameState::Splash);
    assert_eq!(game.player().position, Position::new(0, 14));
    assert_eq!(game.player().state(), PlayerState::Standing(Direction::Right));
}

#[test]
fn mouse_release_or_return_key_begins_the_game() {
    let mut game = RoboRex::new();
    game.update(&click_on(3, 3));
    assert_eq!(game.state(), GameState::Playing);
    assert_eq!(game.player().state(), PlayerState::Standing(Direction::Right));

    let mut game = RoboRex::new();
    let mut input = Input::idle(16);
    input.enter = true;
    game.update(&input);
    assert_eq!(game.state(), GameState::Playing);
}

#[test]
fn playing_game_moves_the_player_and_starts_the_sounds() {
    let mut game = playing();
    let mut input = Input::idle(16);
    input.right = true;
    assert_eq!(game.update(&input), Sounds { instruction: true, word: false });
    assert!(game.player().is_walking());
    assert!(game.draw().is_some());
}

#[test]
fn tile_map_that_is_refused_is_reported() {
    let mut game = RoboRex::new();
    let mut bad = open_field();
    bad.tile_width = 0;
    assert_eq!(game.load_map(&bad), Err(MapParseError::InvalidDimensions));
    assert!(!game.level().has_map());
}

#[test]
fn closed_gate_keeps_the_player_in_the_level() {
    let mut game = playing();
    go_to(&mut game, 24, 14);
    assert_eq!(game.player().position, Position::new(23, 14));
    assert_eq!(game.level().index(), 0);
    go_to(&mut game, 23, 13);
    go_to(&mut game, 24, 13);
    assert_eq!(game.player().position, Position::new(23, 13));
    assert_eq!(game.player().state(), PlayerState::Standing(Direction::Right));
    assert_eq!(game.level().index(), 0);
    assert_eq!(game.state(), GameState::Playing);
}

#[test]
fn passing_the_open_gate_begins_the_next_level() {
    let mut game = playing();
    clear_first_level(&mut game);
    assert!(game.level().puzzle().is_solved());
    assert!(game.level().game_map().unwrap().is_gate_open());
    assert_eq!(game.level().index(), 0);

    go_to(&mut game, 24, 11);
    game.update(&click_on(24, 13));
    for _ in 0..3 {
        game.update(&Input::idle(300));
    }
    assert_eq!(game.player().position, Position::new(24, 12));
    assert_eq!(game.level().index(), 0);
    game.update(&Input::idle(300));

    assert_eq!(game.state(), GameState::Playing);
    assert_eq!(game.level().index(), 1);
    assert_eq!(game.level().map_file(), "resources/tiled/level2.tmx");
    assert!(!game.level().has_map());
    assert_eq!(game.level().puzzle().answer.len(), 8);
    assert!(!game.level().puzzle().is_solved());
    assert_eq!(game.player().position, Position::new(0, 14));
    assert_eq!(game.player().state(), PlayerState::Standing(Direction::Down));
}

#[test]
fn player_waits_for_the_map_of_the_next_level() {
    let mut game = playing();
    clear_first_level(&mut game);
    go_to(&mut game, 24, 13);
    assert_eq!(game.level().index(), 1);
    let mut input = Input::idle(300);
    input.right = true;
    for _ in 0..5 {
        assert_eq!(game.update(&input), Sounds { instruction: false, word: false });
    }
    assert_eq!(game.player().position, Position::new(0, 14));
    game.load_map(&open_field()).unwrap();
    assert_eq!(game.update(&input), Sounds { instruction: true, word: false });
    assert!(game.player().is_walking());
}

#[test]
fn game_is_over_after_the_last_level() {
    let mut game = playing();
    clear_first_level(&mut game);
    go_to(&mut game, 24, 13);
    assert_eq!(game.level().index(), 1);
    game.load_map(&open_field()).unwrap();

    go_to(&mut game, 24, 14);
    assert_eq!(game.state(), GameState::Finished);
    assert_eq!(game.level().index(), 1);
    assert!(game.level().puzzle().is_solved());
    assert_eq!(game.player().position, Position::new(24, 14));
    assert!(game.draw().is_none());

    let mut input = click_on(0, 0);
    input.left = true;
    input.enter = true;
    for _ in 0..10 {
        assert_eq!(game.update(&input), Sounds { instruction: false, word: false });
    }
    assert_eq!(game.state(), GameState::Finished);
    assert_eq!(game.player().position, Position::new(24, 14));
}
