use roborex::direction::Direction;
use roborex::game_map::GameMap;
use roborex::geom::Vector;
use roborex::input::Input;
use roborex::player::Player;
use roborex::player_state::PlayerState;
use roborex::primitive::Position;
use roborex::render::{PlayerSprite, Sprites};
use roborex::tile_map::{LayerData, TileImage, TileLayer, TileMap, Tileset};

const FLOOR: u32 = 197;
const WALL: u32 = 5;

fn map_of(rows: Vec<Vec<u32>>) -> GameMap {
    let tile_map = TileMap {
        tile_width: 16,
        tile_height: 16,
        tilesets: vec![Tileset {
            images: vec![TileImage { source: "tiles.png".to_string(), width: 400, height: 400 }],
        }],
        layers: vec![TileLayer { name: "ground".to_string(), tiles: LayerData::Finite(rows) }],
    };
    GameMap::new(&tile_map, Position::new(24, 13)).unwrap()
}

fn open_field() -> GameMap {
    map_of(vec![vec![FLOOR; 26]; 17])
}

fn player_at(x: u32, y: u32) -> Player {
    let mut player = Player::new();
    player.position = Position::new(x, y);
    player
}

fn press(direction: Direction, dt: u32) -> Input {
    let mut input = Input::idle(dt);
    match direction {
        Direction::Left => input.left = true,
        Direction::Right => input.right = true,
        Direction::Up => input.up = true,
        Direction::Down => input.down = true,
    }
    input
}

fn click_on(x: u32, y: u32, dt: u32) -> Input {
    let mut input = Input::idle(dt);
    input.released = Some(Vector::new(x as i64 * 32 + 16, y as i64 * 32 + 16));
    input
}

fn walking(direction: Direction, grid_count: u32, timer: i64, sprites_idx: usize, tick: u64) -> PlayerState {
    PlayerState::Walking { direction, grid_count, timer, sprites_idx, tick }
}

fn setting_out(direction: Direction, grid_count: u32) -> PlayerState {
    walking(direction, grid_count, 300, 0, 0)
}

#[test]
fn new_player_stands_at_the_origin_looking_right() {
    let player = Player::new();
    assert_eq!(player.position, Position::new(0, 0));
    assert_eq!(player.position(), Position::new(0, 0));
    assert_eq!(player.state(), PlayerState::Standing(Direction::Right));
    assert!(!player.is_walking());
}

#[test]
fn held_direction_goes_by_priority() {
    assert_eq!(Input::idle(1).held_direction(), None);
    let mut input = Input::idle(1);
    input.down = true;
    assert_eq!(input.held_direction(), Some(Direction::Down));
    input.up = true;
    assert_eq!(input.held_direction(), Some(Direction::Up));
    input.left = true;
    assert_eq!(input.held_direction(), Some(Direction::Left));
    input.right = true;
    assert_eq!(input.held_direction(), Some(Direction::Right));
}

#[test]
fn walking_button_is_any_arrow_key() {
    assert!(!Player::is_walking_button_pressed(&Input::idle(1)));
    for direction in [Direction::Left, Direction::Right, Direction::Up, Direction::Down] {
        assert!(Player::is_walking_button_pressed(&press(direction, 1)));
    }
    let mut input = Input::idle(1);
    input.enter = true;
    input.released = Some(Vector::new(0, 0));
    assert!(!Player::is_walking_button_pressed(&input));
}

#[test]
fn next_position_is_one_step_away() {
    let player = player_at(3, 5);
    assert_eq!(player.next_position(Direction::Right), Position::new(4, 5));
    assert_eq!(player.next_position(Direction::Left), Position::new(2, 5));
    assert_eq!(player.next_position(Direction::Up), Position::new(3, 4));
    assert_eq!(player.next_position(Direction::Down), Position::new(3, 6));
}

#[test]
fn next_position_stops_at_the_edges() {
    let player = player_at(0, 0);
    assert_eq!(player.next_position(Direction::Left), Position::new(0, 0));
    assert_eq!(player.next_position(Direction::Up), Position::new(0, 0));
    let player = player_at(u32::MAX, u32::MAX);
    assert_eq!(player.next_position(Direction::Right), Position::new(u32::MAX, u32::MAX));
    assert_eq!(player.next_position(Direction::Down), Position::new(u32::MAX, u32::MAX));
    assert_eq!(player.next_position(Direction::Left), Position::new(u32::MAX - 1, u32::MAX));
}

#[test]
fn walk_sets_out_for_one_step() {
    let map = open_field();
    let mut player = player_at(3, 5);
    player.walk(Direction::Down, &map);
    assert_eq!(player.state(), setting_out(Direction::Down, 1));
    assert_eq!(player.position, Position::new(3, 5));
    assert!(player.is_walking());
}

#[test]
fn walk_left_at_the_left_edge_stands_looking_left() {
    let map = open_field();
    let mut player = player_at(0, 5);
    player.walk(Direction::Left, &map);
    assert_eq!(player.state(), PlayerState::Standing(Direction::Left));
    assert_eq!(player.position, Position::new(0, 5));
}

#[test]
fn walk_up_at_the_upper_edge_stands_looking_up() {
    let map = open_field();
    let mut player = player_at(4, 0);
    player.walk(Direction::Up, &map);
    assert_eq!(player.state(), PlayerState::Standing(Direction::Up));
    assert_eq!(player.position, Position::new(4, 0));
}

#[test]
fn walk_into_a_wall_stands_looking_at_it() {
    let map = map_of(vec![vec![FLOOR, WALL, FLOOR]]);
    let mut player = player_at(0, 0);
    player.walk(Direction::Right, &map);
    assert_eq!(player.state(), PlayerState::Standing(Direction::Right));
    player.walk(Direction::Down, &map);
    assert_eq!(player.state(), PlayerState::Standing(Direction::Down));
    assert_eq!(player.position, Position::new(0, 0));
}

#[test]
fn walk_to_the_own_cell_stands_still() {
    let mut player = player_at(3, 5);
    player.walk_to(Position::new(3, 5));
    assert_eq!(player.state(), PlayerState::Standing(Direction::Right));
    assert_eq!(player.position, Position::new(3, 5));

    let map = open_field();
    player.walk(Direction::Up, &map);
    player.walk_to(Position::new(3, 5));
    assert_eq!(player.state(), PlayerState::Standing(Direction::Up));
    assert_eq!(player.position, Position::new(3, 5));
}

#[test]
fn walk_to_goes_along_the_longer_axis() {
    let mut player = player_at(3, 5);
    player.walk_to(Position::new(10, 6));
    assert_eq!(player.state(), setting_out(Direction::Right, 7));
    player.stop();
    player.walk_to(Position::new(1, 6));
    assert_eq!(player.state(), setting_out(Direction::Left, 2));
    player.stop();
    player.walk_to(Position::new(4, 9));
    assert_eq!(player.state(), setting_out(Direction::Down, 4));
    player.stop();
    player.walk_to(Position::new(5, 0));
    assert_eq!(player.state(), setting_out(Direction::Up, 5));
    assert_eq!(player.position, Position::new(3, 5));
}

#[test]
fn walk_to_prefers_the_horizontal_axis_on_a_tie() {
    let mut player = player_at(3, 5);
    player.walk_to(Position::new(5, 7));
    assert_eq!(player.state(), setting_out(Direction::Right, 2));
    player.stop();
    player.walk_to(Position::new(1, 3));
    assert_eq!(player.state(), setting_out(Direction::Left, 2));
}

#[test]
fn walk_to_the_far_corner_counts_every_step() {
    let mut player = player_at(0, 0);
    player.walk_to(Position::new(u32::MAX, u32::MAX - 1));
    assert_eq!(player.state(), setting_out(Direction::Right, u32::MAX));
    let mut player = player_at(u32::MAX, u32::MAX);
    player.walk_to(Position::new(1, 0));
    assert_eq!(player.state(), setting_out(Direction::Up, u32::MAX));
}

#[test]
fn stop_keeps_the_facing() {
    let map = open_field();
    let mut player = player_at(3, 5);
    player.walk(Direction::Left, &map);
    player.stop();
    assert_eq!(player.state(), PlayerState::Standing(Direction::Left));
    player.stop();
    assert_eq!(player.state(), PlayerState::Standing(Direction::Left));
}

#[test]
fn key_sends_a_standing_player_off() {
    let map = open_field();
    let mut player = player_at(3, 5);
    player.update(&press(Direction::Up, 16), &map);
    assert_eq!(player.state(), setting_out(Direction::Up, 1));
    assert_eq!(player.position, Position::new(3, 5));
}

#[test]
fn key_wins_over_the_mouse() {
    let map = open_field();
    let mut player = player_at(3, 5);
    let mut input = click_on(10, 5, 16);
    input.down = true;
    player.update(&input, &map);
    assert_eq!(player.state(), setting_out(Direction::Down, 1));
}

#[test]
fn click_sends_a_standing_player_off() {
    let map = open_field();
    let mut player = player_at(3, 5);
    player.update(&click_on(10, 6, 16), &map);
    assert_eq!(player.state(), setting_out(Direction::Right, 7));
    assert_eq!(player.position, Position::new(3, 5));
}

#[test]
fn click_is_ignored_while_walking() {
    let map = open_field();
    let mut player = player_at(3, 5);
    player.update(&press(Direction::Right, 16), &map);
    player.update(&click_on(3, 9, 100), &map);
    assert_eq!(player.state(), walking(Direction::Right, 1, 200, 0, 100));
}

#[test]
fn idle_player_stays_where_they_are() {
    let map = open_field();
    let mut player = player_at(3, 5);
    for _ in 0..50 {
        player.update(&Input::idle(16), &map);
        assert_eq!(player.state(), PlayerState::Standing(Direction::Right));
        assert_eq!(player.position, Position::new(3, 5));
    }
}

#[test]
fn step_lands_once_the_timer_has_run_out() {
    let map = open_field();
    let mut player = player_at(3, 5);
    player.update(&press(Direction::Right, 100), &map);
    assert_eq!(player.state(), setting_out(Direction::Right, 1));
    player.update(&Input::idle(100), &map);
    assert_eq!(player.state(), walking(Direction::Right, 1, 200, 0, 100));
    player.update(&Input::idle(100), &map);
    assert_eq!(player.state(), walking(Direction::Right, 1, 100, 0, 200));
    player.update(&Input::idle(100), &map);
    assert_eq!(player.state(), walking(Direction::Right, 1, 0, 1, 0));
    assert_eq!(player.position, Position::new(3, 5));
    player.update(&Input::idle(100), &map);
    assert_eq!(player.state(), PlayerState::Standing(Direction::Right));
    assert_eq!(player.position, Position::new(4, 5));
}

#[test]
fn timer_may_fall_below_zero() {
    let map = open_field();
    let mut player = player_at(3, 5);
    player.update(&press(Direction::Down, 17), &map);
    for _ in 0..17 {
        player.update(&Input::idle(17), &map);
    }
    assert_eq!(player.state(), walking(Direction::Down, 1, 11, 1, 85));
    player.update(&Input::idle(17), &map);
    assert_eq!(player.state(), walking(Direction::Down, 1, -6, 1, 102));
    assert_eq!(player.position, Position::new(3, 5));
    player.update(&Input::idle(17), &map);
    assert_eq!(player.state(), PlayerState::Standing(Direction::Down));
    assert_eq!(player.position, Position::new(3, 6));
}

#[test]
fn walking_animation_moves_on_after_a_fifth_of_a_second() {
    let map = open_field();
    let mut player = player_at(3, 5);
    player.walk_to(Position::new(3, 9));
    player.update(&Input::idle(200), &map);
    assert_eq!(player.state(), walking(Direction::Down, 4, 100, 0, 200));
    player.update(&Input::idle(1), &map);
    assert_eq!(player.state(), walking(Direction::Down, 4, 99, 1, 0));
}

#[test]
fn held_key_keeps_the_player_walking() {
    let map = open_field();
    let mut player = player_at(3, 5);
    player.update(&press(Direction::Right, 300), &map);
    player.update(&press(Direction::Right, 300), &map);
    player.update(&press(Direction::Right, 300), &map);
    assert_eq!(player.position, Position::new(4, 5));
    assert_eq!(player.state(), setting_out(Direction::Right, 1));
}

#[test]
fn player_turns_to_the_held_key_when_a_step_lands() {
    let map = open_field();
    let mut player = player_at(3, 5);
    player.update(&press(Direction::Right, 300), &map);
    player.update(&press(Direction::Right, 300), &map);
    let mut both = press(Direction::Up, 300);
    both.down = true;
    player.update(&both, &map);
    assert_eq!(player.position, Position::new(4, 5));
    assert_eq!(player.state(), setting_out(Direction::Up, 1));
}

#[test]
fn player_stands_facing_a_blocked_key_when_a_step_lands() {
    let map = map_of(vec![vec![FLOOR, FLOOR, WALL]]);
    let mut player = player_at(0, 0);
    player.update(&press(Direction::Right, 300), &map);
    player.update(&press(Direction::Right, 300), &map);
    player.update(&press(Direction::Down, 300), &map);
    assert_eq!(player.position, Position::new(1, 0));
    assert_eq!(player.state(), PlayerState::Standing(Direction::Down));
}

#[test]
fn keys_are_ignored_while_steps_are_left() {
    let map = open_field();
    let mut player = player_at(3, 5);
    player.walk_to(Position::new(6, 5));
    player.update(&press(Direction::Up, 300), &map);
    player.update(&press(Direction::Up, 300), &map);
    assert_eq!(player.position, Position::new(4, 5));
    assert_eq!(player.state(), walking(Direction::Right, 2, 300, 1, 0));
}

#[test]
fn player_does_not_move_when_the_next_cell_is_blocked() {
    let map = map_of(vec![vec![FLOOR, WALL, FLOOR]]);
    let mut player = player_at(0, 0);
    player.walk_to(Position::new(2, 0));
    assert!(player.is_walking());
    player.update(&press(Direction::Right, 1000), &map);
    assert_eq!(player.position, Position::new(0, 0));
    assert_eq!(player.state(), PlayerState::Standing(Direction::Right));
}

#[test]
fn walk_across_a_wall_halts_at_the_last_free_cell() {
    let mut rows = vec![vec![FLOOR; 26]; 17];
    rows[5][7] = WALL;
    let map = map_of(rows);
    let mut player = player_at(3, 5);
    player.update(&click_on(10, 6, 300), &map);
    assert_eq!(player.state(), setting_out(Direction::Right, 7));
    let mut visited = vec![player.position];
    for _ in 0..7 {
        player.update(&Input::idle(300), &map);
        if *visited.last().unwrap() != player.position {
            visited.push(player.position);
        }
    }
    assert_eq!(
        visited,
        vec![Position::new(3, 5), Position::new(4, 5), Position::new(5, 5), Position::new(6, 5)]
    );
    assert_eq!(player.state(), PlayerState::Standing(Direction::Right));
    for _ in 0..10 {
        player.update(&Input::idle(300), &map);
        assert_eq!(player.position, Position::new(6, 5));
        assert_eq!(player.state(), PlayerState::Standing(Direction::Right));
    }
}

#[test]
fn walk_across_a_wall_halts_whatever_the_length_of_the_ticks() {
    let mut rows = vec![vec![FLOOR; 26]; 17];
    rows[5][7] = WALL;
    let map = map_of(rows);
    for dt in [1u32, 7, 16, 17, 100, 299, 300, 301, 5000] {
        let mut player = player_at(3, 5);
        player.update(&click_on(10, 6, dt), &map);
        for _ in 0..2000 {
            player.update(&Input::idle(dt), &map);
            assert!(player.position.x <= 6);
            assert_eq!(player.position.y, 5);
        }
        assert_eq!(player.position, Position::new(6, 5));
        assert_eq!(player.state(), PlayerState::Standing(Direction::Right));
    }
}

#[test]
fn walk_off_the_grid_halts_at_its_edge() {
    let map = open_field();
    let mut player = player_at(20, 16);
    player.walk_to(Position::new(40, 16));
    for _ in 0..40 {
        player.update(&Input::idle(300), &map);
    }
    assert_eq!(player.position, Position::new(25, 16));
    assert_eq!(player.state(), PlayerState::Standing(Direction::Right));
}

#[test]
fn walk_arrives_where_it_was_sent() {
    let map = open_field();
    let mut player = player_at(3, 5);
    player.walk_to(Position::new(3, 1));
    for _ in 0..8 {
        assert!(player.is_walking());
        player.update(&Input::idle(300), &map);
    }
    assert_eq!(player.position, Position::new(3, 1));
    assert_eq!(player.state(), PlayerState::Standing(Direction::Up));
}

#[test]
fn standing_animation_moves_on_after_a_fifth_of_a_second() {
    let map = open_field();
    let mut player = player_at(3, 5);
    assert_eq!(player.draw().index, 0);
    player.update(&Input::idle(200), &map);
    assert_eq!(player.draw().index, 0);
    player.update(&Input::idle(1), &map);
    assert_eq!(player.draw().index, 1);
    player.update(&Input::idle(201), &map);
    assert_eq!(player.draw().index, 0);
    player.update(&Input::idle(u32::MAX), &map);
    assert_eq!(player.draw().index, 1);
}

#[test]
fn setting_out_starts_the_standing_animation_again() {
    let map = open_field();
    let mut player = player_at(3, 5);
    player.update(&Input::idle(201), &map);
    assert_eq!(player.draw().index, 1);
    player.update(&press(Direction::Left, 16), &map);
    player.stop();
    assert_eq!(player.draw().index, 0);
}

#[test]
fn standing_player_is_drawn_from_the_standing_pictures() {
    let map = open_field();
    let mut player = player_at(0, 5);
    assert_eq!(
        player.draw(),
        PlayerSprite {
            sprites: Sprites::StandingSide,
            index: 0,
            center: Vector::new(32, 184),
            scale: 2,
            flipped: false,
            z: 12,
        }
    );
    player.walk(Direction::Left, &map);
    assert_eq!(player.draw().sprites, Sprites::StandingSide);
    assert!(player.draw().flipped);
    let mut player = player_at(3, 0);
    player.walk(Direction::Up, &map);
    assert_eq!(player.draw().sprites, Sprites::StandingUp);
    assert!(!player.draw().flipped);
    let mut player = player_at(3, 16);
    player.walk(Direction::Down, &map);
    assert_eq!(player.draw().sprites, Sprites::StandingDown);
    assert!(!player.draw().flipped);
}

#[test]
fn walking_player_is_drawn_from_the_walking_pictures() {
    let map = open_field();
    let mut player = player_at(3, 5);
    player.walk_to(Position::new(0, 5));
    player.update(&Input::idle(150), &map);
    assert_eq!(
        player.draw(),
        PlayerSprite {
            sprites: Sprites::WalkingSide,
            index: 0,
            center: Vector::new(112, 184),
            scale: 2,
            flipped: true,
            z: 12,
        }
    );
    player.stop();
    player.walk_to(Position::new(9, 5));
    assert_eq!(player.draw().sprites, Sprites::WalkingSide);
    assert!(!player.draw().flipped);
    player.stop();
    player.walk_to(Position::new(3, 6));
    assert_eq!(player.draw().sprites, Sprites::WalkingDown);
    player.stop();
    player.walk_to(Position::new(3, 4));
    assert_eq!(player.draw().sprites, Sprites::WalkingUp);
    assert!(!player.draw().flipped);
}

#[test]
fn walking_pictures_go_round() {
    let map = open_field();
    let mut player = player_at(0, 0);
    player.walk_to(Position::new(0, 16));
    let mut frames = vec![];
    for _ in 0..12 {
        frames.push(player.draw().index);
        player.update(&Input::idle(150), &map);
        player.update(&Input::idle(150), &map);
        player.update(&Input::idle(1), &map);
    }
    assert_eq!(frames, vec![0, 1, 2, 3, 0, 1, 2, 3, 0, 1, 2, 3]);
}

#[test]
fn walking_progress_stays_between_the_cells_until_the_timer_runs_out() {
    let map = open_field();
    for dt in [1u32, 16, 17, 33, 100, 300] {
        let mut player = player_at(3, 5);
        player.walk_to(Position::new(6, 5));
        for _ in 0..300 {
            if let PlayerState::Walking { timer, .. } = player.state() {
                assert!(timer <= 300);
                let drawn = player.draw().center.x;
                let cell = player.position.x as i64 * 32 + 32;
                assert!(drawn >= cell);
                if timer >= 0 {
                    assert!(drawn <= cell + 32);
                }
            }
            player.update(&Input::idle(dt), &map);
        }
    }
}

#[test]
fn picture_lists_have_their_lengths() {
    assert_eq!(Sprites::StandingSide.len(), 2);
    assert_eq!(Sprites::StandingUp.len(), 2);
    assert_eq!(Sprites::StandingDown.len(), 2);
    assert_eq!(Sprites::WalkingSide.len(), 4);
    assert_eq!(Sprites::WalkingUp.len(), 4);
    assert_eq!(Sprites::WalkingDown.len(), 4);
}

#[test]
fn player_state_setters_touch_only_a_walk() {
    let mut state = PlayerState::Standing(Direction::Up);
    state.sprites_idx(3);
    state.timer(10);
    state.grid_count(4);
    state.tick(9);
    assert_eq!(state, PlayerState::Standing(Direction::Up));

    let mut state = setting_out(Direction::Left, 2);
    state.sprites_idx(3);
    assert_eq!(state, walking(Direction::Left, 2, 300, 3, 0));
    state.timer(-10);
    assert_eq!(state, walking(Direction::Left, 2, -10, 3, 0));
    state.grid_count(4);
    assert_eq!(state, walking(Direction::Left, 4, -10, 3, 0));
    state.tick(9);
    assert_eq!(state, walking(Direction::Left, 4, -10, 3, 9));
    assert_eq!(PlayerState::stop(&state), PlayerState::Standing(Direction::Left));
    assert_eq!(
        PlayerState::stop(&PlayerState::Standing(Direction::Down)),
        PlayerState::Standing(Direction::Down)
    );
}

#[test]
fn unit_steps_of_the_directions() {
    assert_eq!(Direction::Left.unit(), (-1, 0));
    assert_eq!(Direction::Right.unit(), (1, 0));
    assert_eq!(Direction::Up.unit(), (0, -1));
    assert_eq!(Direction::Down.unit(), (0, 1));
}

#[test]
fn walk_halts_within_a_step_and_a_tick_for_each_cell() {
    let mut rows = vec![vec![FLOOR; 26]; 17];
    rows[5][7] = WALL;
    let map = map_of(rows);
    let mut player = player_at(3, 5);
    player.walk_to(Position::new(10, 5));
    for _ in 0..3 * (300 + 1) {
        assert!(player.is_walking());
        player.update(&Input::idle(1), &map);
    }
    assert_eq!(player.position, Position::new(6, 5));
    assert!(player.is_walking());
    player.update(&Input::idle(1), &map);
    assert_eq!(player.position, Position::new(6, 5));
    assert_eq!(player.state(), PlayerState::Standing(Direction::Right));
    for _ in 3 * (300 + 1) + 1..(3 + 1) * (300 + 1) {
        player.update(&Input::idle(1), &map);
    }
    assert_eq!(player.position, Position::new(6, 5));
    assert_eq!(player.state(), PlayerState::Standing(Direction::Right));
}

#[test]
fn walk_over_free_cells_arrives_within_a_step_and_a_tick_for_each_cell() {
    let map = open_field();
    let mut player = player_at(3, 5);
    player.walk_to(Position::new(3, 8));
    for _ in 0..3 * (300 + 1) {
        assert!(player.is_walking());
        player.update(&Input::idle(1), &map);
    }
    assert_eq!(player.position, Position::new(3, 8));
    assert_eq!(player.state(), PlayerState::Standing(Direction::Down));
}
