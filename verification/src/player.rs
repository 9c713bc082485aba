//! The player: where they stand, and how they walk from cell to cell.

use vstd::prelude::*;
use crate::constant::{
    GRID_HEIGHT, GRID_WIDTH, PLAYER_Z, SCALING_FACTOR, WALKING_DURATION,
};
use crate::direction::Direction;
use crate::game_map::{GameMap, MapView};
use crate::grid::{
    cell_of, player_point, walked_pixels, walked_share_is_bounded, Grid, GRID_X_OFFSET,
    GRID_Y_OFFSET,
};
use crate::geom::Vector;
use crate::input::Input;
use crate::player_state::PlayerState;
use crate::primitive::Position;
use crate::render::{PlayerSprite, Sprites};

verus! {

/// The frames per second of the player's animations.
pub const FRAMERATE: u32 = 5;

#[derive(Debug)]
pub struct Player {
    pub position: Position,
    state: PlayerState,
    framerate: u32,
    standing_sprites_idx: usize,
    standing_tick: u64,
}

/// What a player is: the cell they are on, what they are doing, and the
/// state of the animation shown while they stand.
pub struct PlayerView {
    pub position: Position,
    pub state: PlayerState,
    /// Frames per second of the animations.
    pub framerate: u32,
    /// Frame of the standing animation.
    pub standing_sprites_idx: usize,
    /// Milliseconds since the frame of the standing animation last changed.
    pub standing_tick: u64,
}

/// The cell one step from `p` in the direction `d`. At the edge of the
/// coordinate range the step is not taken, and the cell is `p` itself.
pub open spec fn stepped(p: Position, d: Direction) -> Position {
    match d {
        Direction::Right => if p.x < u32::MAX {
            Position { x: (p.x + 1) as u32, y: p.y }
        } else {
            p
        },
        Direction::Left => if p.x < 1 {
            p
        } else {
            Position { x: (p.x - 1) as u32, y: p.y }
        },
        Direction::Up => if p.y < 1 {
            p
        } else {
            Position { x: p.x, y: (p.y - 1) as u32 }
        },
        Direction::Down => if p.y < u32::MAX {
            Position { x: p.x, y: (p.y + 1) as u32 }
        } else {
            p
        },
    }
}

/// Whether an animation whose frame has been shown for `tick` milliseconds
/// moves on to its next frame: a frame lasts `1000 / framerate` milliseconds.
pub open spec fn frame_due(tick: int, framerate: int) -> bool {
    tick * framerate > 1000
}

/// The frame after `idx`; the count starts again from 0 at the end of its range.
pub open spec fn next_frame(idx: usize) -> usize {
    if idx == usize::MAX {
        0
    } else {
        (idx + 1) as usize
    }
}

/// The state at the start of a walk of `steps` cells in the direction `d`.
pub open spec fn setting_out(d: Direction, steps: u32) -> PlayerState {
    PlayerState::Walking {
        direction: d,
        grid_count: steps,
        timer: WALKING_DURATION,
        sprites_idx: 0,
        tick: 0,
    }
}

/// The cell that the point `point` of the screen belongs to.
pub open spec fn clicked_cell(point: Vector) -> Position {
    Position {
        x: cell_of(point.x as int, GRID_X_OFFSET as int, GRID_WIDTH as int) as u32,
        y: cell_of(point.y as int, GRID_Y_OFFSET as int, GRID_HEIGHT as int) as u32,
    }
}

impl PlayerView {
    /// The timers are in range: an animation frame is never shown for more
    /// than a second, and a step never has more than its whole time left.
    pub open spec fn wf(self) -> bool {
        &&& self.framerate >= 1
        &&& self.standing_tick <= 1000
        &&& self.state matches PlayerState::Walking { timer, tick, .. } ==> timer
            <= WALKING_DURATION && tick <= 1000
    }

    pub open spec fn is_walking(self) -> bool {
        self.state is Walking
    }

    /// The player with another state.
    pub open spec fn with_state(self, state: PlayerState) -> PlayerView {
        PlayerView {
            position: self.position,
            state,
            framerate: self.framerate,
            standing_sprites_idx: self.standing_sprites_idx,
            standing_tick: self.standing_tick,
        }
    }

    /// The player on another cell.
    pub open spec fn at(self, position: Position) -> PlayerView {
        PlayerView {
            position,
            state: self.state,
            framerate: self.framerate,
            standing_sprites_idx: self.standing_sprites_idx,
            standing_tick: self.standing_tick,
        }
    }

    /// The player standing still, looking where they looked.
    pub open spec fn stopped(self) -> PlayerView {
        self.with_state(PlayerState::Standing(self.state.facing()))
    }

    /// The player after turning to `d` and trying to take one step: they set
    /// out if the next cell is another cell and can be walked on, and stand
    /// facing `d` otherwise.
    pub open spec fn walked(self, d: Direction, map: MapView) -> PlayerView {
        let next = stepped(self.position, d);
        if map.walkable(next) && self.position != next {
            PlayerView {
                position: self.position,
                state: setting_out(d, 1),
                framerate: self.framerate,
                standing_sprites_idx: 0,
                standing_tick: 0,
            }
        } else {
            self.with_state(PlayerState::Standing(d))
        }
    }

    /// The player after being sent to the cell `target`: they set out along
    /// the axis on which the target is farther away, the horizontal one if
    /// both are equally far, for as many steps as it is away on that axis.
    /// Sent to the cell they are on, they stand still.
    pub open spec fn walked_to(self, target: Position) -> PlayerView {
        let across: int = if target.x > self.position.x {
            target.x - self.position.x
        } else {
            self.position.x - target.x
        };
        let along: int = if target.y > self.position.y {
            target.y - self.position.y
        } else {
            self.position.y - target.y
        };
        if across == 0 && along == 0 {
            self.stopped()
        } else if across >= along {
            self.with_state(
                setting_out(
                    if target.x > self.position.x {
                        Direction::Right
                    } else {
                        Direction::Left
                    },
                    across as u32,
                ),
            )
        } else {
            self.with_state(
                setting_out(
                    if target.y > self.position.y {
                        Direction::Down
                    } else {
                        Direction::Up
                    },
                    along as u32,
                ),
            )
        }
    }

    /// The standing player after `dt` milliseconds of the standing animation.
    pub open spec fn idled(self, dt: u32) -> PlayerView {
        if frame_due(self.standing_tick + dt, self.framerate as int) {
            PlayerView {
                position: self.position,
                state: self.state,
                framerate: self.framerate,
                standing_sprites_idx: next_frame(self.standing_sprites_idx),
                standing_tick: 0,
            }
        } else {
            PlayerView {
                position: self.position,
                state: self.state,
                framerate: self.framerate,
                standing_sprites_idx: self.standing_sprites_idx,
                standing_tick: (self.standing_tick + dt) as u64,
            }
        }
    }

    /// The player after one tick on the map `map`.
    ///
    /// A walking player stops where they are if the next cell cannot be
    /// walked on. Otherwise, once the time of the step is up, they land on
    /// the next cell; from there they go on with the steps that are left,
    /// or, if none is, turn to the arrow key held down and take a step that
    /// way, or stop if no key is held. While the time of the step is not up,
    /// it runs down and the walking animation goes on.
    ///
    /// A standing player goes on with the standing animation, then takes a
    /// step towards the arrow key held down, or, if none is held and the
    /// mouse button was let go, sets out for the cell under the mouse.
    pub open spec fn ticked(self, input: Input, map: MapView) -> PlayerView {
        match self.state {
            PlayerState::Walking { direction, grid_count, timer, sprites_idx, tick } => {
                if !map.walkable(stepped(self.position, direction)) {
                    self.stopped()
                } else if timer <= 0 {
                    let landed = self.at(stepped(self.position, direction));
                    if grid_count > 1 {
                        landed.with_state(
                            PlayerState::Walking {
                                direction,
                                grid_count: (grid_count - 1) as u32,
                                timer: WALKING_DURATION,
                                sprites_idx,
                                tick,
                            },
                        )
                    } else {
                        match input.held() {
                            None => landed.stopped(),
                            Some(key) => landed.walked(key, map),
                        }
                    }
                } else if frame_due(tick + input.dt, self.framerate as int) {
                    self.with_state(
                        PlayerState::Walking {
                            direction,
                            grid_count,
                            timer: (timer - input.dt) as i64,
                            sprites_idx: next_frame(sprites_idx),
                            tick: 0,
                        },
                    )
                } else {
                    self.with_state(
                        PlayerState::Walking {
                            direction,
                            grid_count,
                            timer: (timer - input.dt) as i64,
                            sprites_idx,
                            tick: (tick + input.dt) as u64,
                        },
                    )
                }
            },
            PlayerState::Standing(_) => {
                match input.held() {
                    Some(key) => self.idled(input.dt).walked(key, map),
                    None => match input.released {
                        Some(point) => self.idled(input.dt).walked_to(clicked_cell(point)),
                        None => self.idled(input.dt),
                    },
                }
            },
        }
    }

    /// The list of pictures the player is drawn from.
    pub open spec fn sprites(self) -> Sprites {
        match self.state {
            PlayerState::Standing(Direction::Left) | PlayerState::Standing(Direction::Right) => {
                Sprites::StandingSide
            },
            PlayerState::Standing(Direction::Up) => Sprites::StandingUp,
            PlayerState::Standing(Direction::Down) => Sprites::StandingDown,
            PlayerState::Walking { direction: Direction::Left, .. }
            | PlayerState::Walking { direction: Direction::Right, .. } => Sprites::WalkingSide,
            PlayerState::Walking { direction: Direction::Down, .. } => Sprites::WalkingDown,
            PlayerState::Walking { direction: Direction::Up, .. } => Sprites::WalkingUp,
        }
    }

    /// The frame of the animation that is running.
    pub open spec fn frame(self) -> usize {
        match self.state {
            PlayerState::Standing(_) => self.standing_sprites_idx,
            PlayerState::Walking { sprites_idx, .. } => sprites_idx,
        }
    }

    /// The picture of the player: the frame of the running animation, taken
    /// round the list of pictures for what they do and where they look,
    /// mirrored when they look left.
    pub open spec fn sprite(self) -> PlayerSprite {
        PlayerSprite {
            sprites: self.sprites(),
            index: (self.frame() as int % self.sprites().count()) as usize,
            center: player_point(self.state, self.position),
            scale: SCALING_FACTOR,
            flipped: self.state.facing() == Direction::Left,
            z: PLAYER_Z,
        }
    }
}

impl View for Player {
    type V = PlayerView;

    closed spec fn view(&self) -> PlayerView {
        PlayerView {
            position: self.position,
            state: self.state,
            framerate: self.framerate,
            standing_sprites_idx: self.standing_sprites_idx,
            standing_tick: self.standing_tick,
        }
    }
}

/// Whether an animation moves on to its next frame.
fn is_frame_due(tick: u64, framerate: u32) -> (due: bool)
    requires
        tick <= 0x1_0000_0400,
    ensures
        due == frame_due(tick as int, framerate as int),
        !due && framerate >= 1 ==> tick <= 1000,
{
    assert(framerate >= 1 && tick * framerate <= 1000 ==> tick <= 1000) by (nonlinear_arith)
        requires
            0 <= tick,
            0 <= framerate,
    ;
    assert(tick * framerate <= 0x1_0000_0400 * 0xffff_ffff) by (nonlinear_arith)
        requires
            0 <= tick <= 0x1_0000_0400,
            0 <= framerate <= 0xffff_ffff,
    ;
    (tick as u128) * (framerate as u128) > 1000
}

/// The frame after `idx`.
fn frame_after(idx: usize) -> (next: usize)
    ensures
        next == next_frame(idx),
{
    if idx == usize::MAX {
        0
    } else {
        idx + 1
    }
}

impl Player {
    /// Whether the timers of the player are in range. Every player made by
    /// `new` is, and stays so.
    pub open spec fn wf(&self) -> bool {
        self@.wf()
    }

    /// A player as `new` makes them: standing on the cell `(0, 0)`,
    /// looking right.
    pub open spec fn new_view() -> PlayerView {
        PlayerView {
            position: Position { x: 0, y: 0 },
            state: PlayerState::Standing(Direction::Right),
            framerate: FRAMERATE,
            standing_sprites_idx: 0,
            standing_tick: 0,
        }
    }

    /// A player standing on the cell `(0, 0)`, looking right.
    pub fn new() -> (player: Self)
        ensures
            player@ == Self::new_view(),
            player.wf(),
    {
        Player {
            position: Position::new(0, 0),
            state: PlayerState::Standing(Direction::Right),
            framerate: FRAMERATE,
            standing_sprites_idx: 0,
            standing_tick: 0,
        }
    }

    /// Puts the player on the cell `position`, doing what they did.
    pub fn place(&mut self, position: Position)
        ensures
            final(self)@ == old(self)@.at(position),
    {
        self.position = position;
    }

    /// Whether an arrow key is held down.
    pub fn is_walking_button_pressed(input: &Input) -> (pressed: bool)
        ensures
            pressed == (input.held() is Some),
    {
        input.left || input.right || input.up || input.down
    }

    /// Moves the player through one tick on the map `game_map`.
    pub fn update(&mut self, input: &Input, game_map: &GameMap)
        requires
            old(self).wf(),
        ensures
            final(self)@ == old(self)@.ticked(*input, game_map@),
            final(self).wf(),
    {
        match self.state {
            PlayerState::Walking { direction, sprites_idx, tick, timer, grid_count } => {
                if !game_map.can_walk_to(&self.next_position(direction)) {
                    self.stop();
                    return ;
                }
                if timer <= 0 {
                    self.position = self.next_position(direction);
                    if grid_count > 1 {
                        self.state.grid_count(grid_count - 1);
                        self.state.timer(WALKING_DURATION);
                    } else {
                        match input.held_direction() {
                            None => self.stop(),
                            Some(key) => self.walk(key, game_map),
                        }
                    }
                } else {
                    let updated_tick = tick + input.dt as u64;
                    self.state.tick(updated_tick);
                    self.state.timer(timer - input.dt as i64);
                    if is_frame_due(updated_tick, self.framerate) {
                        self.state.sprites_idx(frame_after(sprites_idx));
                        self.state.tick(0);
                    }
                }
            },
            PlayerState::Standing(_) => {
                let updated_tick = self.standing_tick + input.dt as u64;
                if is_frame_due(updated_tick, self.framerate) {
                    self.standing_sprites_idx = frame_after(self.standing_sprites_idx);
                    self.standing_tick = 0;
                } else {
                    self.standing_tick = updated_tick;
                }
                match input.held_direction() {
                    Some(key) => self.walk(key, game_map),
                    None => {
                        if let Some(mouse_pos) = input.released {
                            let grid_coordinate = Grid::from_coordinate(mouse_pos);
                            self.walk_to(grid_coordinate);
                        }
                    },
                }
            },
        }
    }

    pub fn is_walking(&self) -> (walking: bool)
        ensures
            walking == self@.is_walking(),
    {
        match self.state {
            PlayerState::Walking { .. } => true,
            PlayerState::Standing(_) => false,
        }
    }

    /// The cell the player is on.
    pub fn position(&self) -> (position: Position)
        ensures
            position == self@.position,
    {
        self.position
    }

    /// What the player is doing.
    pub fn state(&self) -> (state: PlayerState)
        ensures
            state == self@.state,
    {
        self.state
    }

    /// The cell one step from the player in the direction `direction`.
    pub fn next_position(&self, direction: Direction) -> (next: Position)
        ensures
            next == stepped(self@.position, direction),
    {
        match direction {
            Direction::Right => if self.position.x < u32::MAX {
                self.position.add(1, 0)
            } else {
                self.position
            },
            Direction::Left => if self.position.x < 1 {
                self.position
            } else {
                self.position.add(-1, 0)
            },
            Direction::Up => if self.position.y < 1 {
                self.position
            } else {
                self.position.add(0, -1)
            },
            Direction::Down => if self.position.y < u32::MAX {
                self.position.add(0, 1)
            } else {
                self.position
            },
        }
    }

    /// Makes the player stand still, looking where they looked.
    pub fn stop(&mut self)
        ensures
            final(self)@ == old(self)@.stopped(),
    {
        self.state = PlayerState::stop(&self.state);
    }

    /// Turns the player to `direction` and lets them take one step if the
    /// next cell can be walked on.
    pub fn walk(&mut self, direction: Direction, game_map: &GameMap)
        ensures
            final(self)@ == old(self)@.walked(direction, game_map@),
    {
        let next_position = self.next_position(direction);
        if game_map.can_walk_to(&next_position) && self.position != next_position {
            self.standing_tick = 0;
            self.standing_sprites_idx = 0;
            self.state = PlayerState::Walking {
                direction,
                grid_count: 1,
                timer: WALKING_DURATION,
                sprites_idx: 0,
                tick: 0,
            };
        } else {
            self.state = PlayerState::Standing(direction);
        }
    }

    /// Sends the player to the cell `next_position`, in a straight line
    /// along the axis on which it is farther away.
    pub fn walk_to(&mut self, next_position: Position)
        ensures
            final(self)@ == old(self)@.walked_to(next_position),
    {
        let (direction_x, grid_count_x): (Direction, u32) = if next_position.x > self.position.x {
            (Direction::Right, next_position.x - self.position.x)
        } else if next_position.x < self.position.x {
            (Direction::Left, self.position.x - next_position.x)
        } else {
            (Direction::Right, 0)
        };

        let (direction_y, grid_count_y): (Direction, u32) = if next_position.y > self.position.y {
            (Direction::Down, next_position.y - self.position.y)
        } else if next_position.y < self.position.y {
            (Direction::Up, self.position.y - next_position.y)
        } else {
            (Direction::Right, 0)
        };

        self.state = if grid_count_x == 0 && grid_count_y == 0 {
            PlayerState::stop(&self.state)
        } else if grid_count_x >= grid_count_y {
            PlayerState::Walking {
                direction: direction_x,
                grid_count: grid_count_x,
                timer: WALKING_DURATION,
                sprites_idx: 0,
                tick: 0,
            }
        } else {
            PlayerState::Walking {
                direction: direction_y,
                grid_count: grid_count_y,
                timer: WALKING_DURATION,
                sprites_idx: 0,
                tick: 0,
            }
        };
    }

    /// The picture to draw of the player.
    pub fn draw(&self) -> (sprite: PlayerSprite)
        ensures
            sprite == self@.sprite(),
    {
        let player_coordinate = Grid::to_player_coordinate(&self.state, &self.position);
        let flipped = match self.state {
            PlayerState::Standing(Direction::Up)
            | PlayerState::Standing(Direction::Down)
            | PlayerState::Standing(Direction::Right)
            | PlayerState::Walking { direction: Direction::Up, .. }
            | PlayerState::Walking { direction: Direction::Down, .. }
            | PlayerState::Walking { direction: Direction::Right, .. } => false,
            PlayerState::Standing(Direction::Left)
            | PlayerState::Walking { direction: Direction::Left, .. } => true,
        };

        let (sprites, index): (Sprites, usize) = match self.state {
            PlayerState::Standing(Direction::Left) | PlayerState::Standing(Direction::Right) => {
                let sprites = Sprites::StandingSide;
                (sprites, self.standing_sprites_idx % sprites.len())
            },
            PlayerState::Standing(Direction::Up) => {
                let sprites = Sprites::StandingUp;
                (sprites, self.standing_sprites_idx % sprites.len())
            },
            PlayerState::Standing(Direction::Down) => {
                let sprites = Sprites::StandingDown;
                (sprites, self.standing_sprites_idx % sprites.len())
            },
            PlayerState::Walking { direction: Direction::Left, sprites_idx, .. }
            | PlayerState::Walking { direction: Direction::Right, sprites_idx, .. } => {
                let sprites = Sprites::WalkingSide;
                (sprites, sprites_idx % sprites.len())
            },
            PlayerState::Walking { direction: Direction::Down, sprites_idx, .. } => {
                let sprites = Sprites::WalkingDown;
                (sprites, sprites_idx % sprites.len())
            },
            PlayerState::Walking { direction: Direction::Up, sprites_idx, .. } => {
                let sprites = Sprites::WalkingUp;
                (sprites, sprites_idx % sprites.len())
            },
        };
        PlayerSprite {
            sprites,
            index,
            center: player_coordinate,
            scale: SCALING_FACTOR,
            flipped,
            z: PLAYER_Z,
        }
    }
}

/// A player does not move in a tick in which they stand, nor in one in
/// which the cell in front of them cannot be walked on.
pub proof fn blocked_player_stays(player: PlayerView, input: Input, map: MapView)
    requires
        player.state is Standing || !map.walkable(stepped(player.position, player.state.facing())),
    ensures
        player.ticked(input, map).position == player.position,
{
}

/// A walking player whose next cell cannot be walked on stands after the
/// tick, looking where they walked, whatever keys are held.
pub proof fn blocked_walk_halts(player: PlayerView, input: Input, map: MapView)
    requires
        player.state is Walking,
        !map.walkable(stepped(player.position, player.state.facing())),
    ensures
        player.ticked(input, map) == player.stopped(),
        player.ticked(input, map).state == PlayerState::Standing(player.state.facing()),
{
}

/// In one tick a player stays on their cell or moves to the cell in front
/// of them, and to that one only if it can be walked on.
pub proof fn player_moves_to_walkable_cells_only(player: PlayerView, input: Input, map: MapView)
    ensures
        player.ticked(input, map).position == player.position || (player.ticked(
            input,
            map,
        ).position == stepped(player.position, player.state.facing()) && map.walkable(
            player.ticked(input, map).position,
        )),
{
}

/// A tick keeps the timers of a player in range.
pub proof fn tick_keeps_timers_in_range(player: PlayerView, input: Input, map: MapView)
    requires
        player.wf(),
    ensures
        player.ticked(input, map).wf(),
{
    let tick = match player.state {
        PlayerState::Walking { tick, .. } => tick as int,
        PlayerState::Standing(_) => player.standing_tick as int,
    };
    assert(player.framerate >= 1 && (tick + input.dt) * player.framerate <= 1000 ==> tick
        + input.dt <= 1000) by (nonlinear_arith)
        requires
            0 <= tick + input.dt,
            0 <= player.framerate,
    ;
}

/// While a player whose timers are in range walks, the share of the step
/// that has passed is not negative; and as long as the time of the step has
/// not run out, it is not more than 1, and the player is drawn between the
/// cell and the next one.
pub proof fn walking_progress_is_bounded(player: PlayerView)
    requires
        player.wf(),
        player.state is Walking,
    ensures
        ({
            let timer = player.state->timer;
            &&& 0 <= WALKING_DURATION - timer
            &&& timer >= 0 ==> WALKING_DURATION - timer <= WALKING_DURATION
            &&& timer >= 0 ==> 0 <= walked_pixels(timer as int, GRID_WIDTH as int)
                <= GRID_WIDTH
            &&& timer >= 0 ==> 0 <= walked_pixels(timer as int, GRID_HEIGHT as int)
                <= GRID_HEIGHT
        }),
{
    let timer = player.state->timer;
    if timer >= 0 {
        walked_share_is_bounded(timer as int);
    }
}

/// A player sent to the cell they are on stands still on it, looking where
/// they looked.
pub proof fn walk_to_own_cell_stands(player: PlayerView)
    ensures
        player.walked_to(player.position).position == player.position,
        player.walked_to(player.position).state == PlayerState::Standing(player.state.facing()),
{
}

/// A player at the left edge who is told to walk left does not move and
/// stands, looking left; likewise at the upper edge.
pub proof fn walk_off_the_edge_stands(player: PlayerView, map: MapView)
    ensures
        player.position.x == 0 ==> player.walked(Direction::Left, map) == player.with_state(
            PlayerState::Standing(Direction::Left),
        ),
        player.position.y == 0 ==> player.walked(Direction::Up, map) == player.with_state(
            PlayerState::Standing(Direction::Up),
        ),
{
}

/// The cell `n` steps from `p` in the direction `d`.
pub open spec fn stepped_by(p: Position, d: Direction, n: nat) -> Position
    decreases n,
{
    if n == 0 {
        p
    } else {
        stepped(stepped_by(p, d, (n - 1) as nat), d)
    }
}

/// Whether the input leaves the player alone: no arrow key is held and the
/// mouse button was not let go.
pub open spec fn is_idle(input: Input) -> bool {
    input.held() is None && input.released is None
}

/// The player after one tick for each of `inputs`, in their order.
pub open spec fn ticked_all(player: PlayerView, inputs: Seq<Input>, map: MapView) -> PlayerView
    decreases inputs.len(),
{
    if inputs.len() == 0 {
        player
    } else {
        ticked_all(player, inputs.drop_last(), map).ticked(inputs.last(), map)
    }
}

/// Whether a walk of `steps` cells from the cell `from` in the direction
/// `d` gets `reach` cells far on the map: those cells can be walked on, and
/// they are all the cells of the walk or the cell after them cannot be
/// walked on.
pub open spec fn walk_reaches(
    map: MapView,
    from: Position,
    d: Direction,
    steps: u32,
    reach: nat,
) -> bool {
    &&& 1 <= steps
    &&& reach <= steps
    &&& forall|j: nat| 1 <= j <= reach ==> map.walkable(#[trigger] stepped_by(from, d, j))
    &&& reach < steps ==> !map.walkable(stepped_by(from, d, reach + 1))
}

/// Whether `player` is on a walk of `steps` cells from the cell `from` in
/// the direction `d` that gets `reach` cells far: either still walking, on
/// `from` or on one of those cells, with the steps still to take counted
/// down; or standing on the last of them, looking on.
pub open spec fn on_the_way(
    player: PlayerView,
    from: Position,
    d: Direction,
    steps: u32,
    reach: nat,
) -> bool {
    match player.state {
        PlayerState::Walking { direction, grid_count, timer, .. } => {
            &&& direction == d
            &&& 1 <= grid_count <= steps
            &&& steps - grid_count <= reach
            &&& timer <= WALKING_DURATION
            &&& player.position == stepped_by(from, d, (steps - grid_count) as nat)
        },
        PlayerState::Standing(facing) => {
            &&& facing == d
            &&& player.position == stepped_by(from, d, reach)
        },
    }
}

/// At most how many ticks of a millisecond or more a player on such a walk
/// still walks: for each cell to go, the time of a step and the tick in
/// which the step lands.
pub open spec fn ticks_left(player: PlayerView, steps: u32, reach: nat) -> int {
    match player.state {
        PlayerState::Walking { grid_count, timer, .. } => (reach - (steps - grid_count)) * (
        WALKING_DURATION + 1) + (if timer > 0 {
            timer as int
        } else {
            0
        }) + 1,
        PlayerState::Standing(_) => 0,
    }
}

/// One tick of a walk: the player stays on their way, and a tick of a
/// millisecond or more brings the end of the walk nearer.
proof fn lemma_walk_step(
    before: PlayerView,
    from: Position,
    d: Direction,
    steps: u32,
    reach: nat,
    input: Input,
    map: MapView,
)
    requires
        walk_reaches(map, from, d, steps, reach),
        on_the_way(before, from, d, steps, reach),
        is_idle(input),
    ensures
        on_the_way(before.ticked(input, map), from, d, steps, reach),
        ticks_left(before.ticked(input, map), steps, reach) <= ticks_left(before, steps, reach),
        input.dt >= 1 && before.state is Walking ==> ticks_left(
            before.ticked(input, map),
            steps,
            reach,
        ) < ticks_left(before, steps, reach),
{
    assert(WALKING_DURATION == 300);
    match before.state {
        PlayerState::Walking { grid_count, .. } => {
            let taken = (steps - grid_count) as nat;
            assert(stepped(before.position, d) == stepped_by(from, d, taken + 1));
            if taken < reach {
                assert(map.walkable(stepped_by(from, d, taken + 1)));
            }
        },
        PlayerState::Standing(_) => {},
    }
}

/// A walk never leaves its way. A player who has set out for `steps`
/// cells in the direction `d`, as `walk_to` sends them, and is then left
/// alone, walks along the cells that can be walked on and never beyond;
/// and whenever they stand again, they stand on the last cell of the walk,
/// or in front of the first cell that cannot be walked on, looking at it.
pub proof fn walk_stays_on_its_way(
    start: PlayerView,
    d: Direction,
    steps: u32,
    reach: nat,
    inputs: Seq<Input>,
    map: MapView,
)
    requires
        start.state == setting_out(d, steps),
        walk_reaches(map, start.position, d, steps, reach),
        forall|i: int| 0 <= i < inputs.len() ==> is_idle(#[trigger] inputs[i]),
    ensures
        on_the_way(ticked_all(start, inputs, map), start.position, d, steps, reach),
        ticked_all(start, inputs, map).state is Standing ==> ticked_all(
            start,
            inputs,
            map,
        ).position == stepped_by(start.position, d, reach),
    decreases inputs.len(),
{
    if inputs.len() > 0 {
        walk_stays_on_its_way(start, d, steps, reach, inputs.drop_last(), map);
        lemma_walk_step(
            ticked_all(start, inputs.drop_last(), map),
            start.position,
            d,
            steps,
            reach,
            inputs.last(),
            map,
        );
    }
}

/// With every tick of a millisecond or more, the end of a walk comes
/// nearer by a tick at least.
proof fn lemma_walk_runs_down(
    start: PlayerView,
    d: Direction,
    steps: u32,
    reach: nat,
    inputs: Seq<Input>,
    map: MapView,
)
    requires
        start.state == setting_out(d, steps),
        walk_reaches(map, start.position, d, steps, reach),
        forall|i: int| 0 <= i < inputs.len() ==> is_idle(#[trigger] inputs[i]) && inputs[i].dt >= 1,
    ensures
        ticks_left(ticked_all(start, inputs, map), steps, reach) == 0 || ticks_left(
            ticked_all(start, inputs, map),
            steps,
            reach,
        ) + inputs.len() <= ticks_left(start, steps, reach),
    decreases inputs.len(),
{
    if inputs.len() > 0 {
        lemma_walk_runs_down(start, d, steps, reach, inputs.drop_last(), map);
        walk_stays_on_its_way(start, d, steps, reach, inputs.drop_last(), map);
        lemma_walk_step(
            ticked_all(start, inputs.drop_last(), map),
            start.position,
            d,
            steps,
            reach,
            inputs.last(),
            map,
        );
    }
}

/// A walk comes to a halt where it gets to. A player who has set out for
/// `steps` cells in the direction `d`, as `walk_to` sends them, and is then
/// left alone for ticks of a millisecond or more, stands in the end: on the
/// last cell of the walk if all its cells can be walked on, and else in
/// front of the first cell that cannot, looking at it. This takes no more
/// ticks than `WALKING_DURATION + 1` for each cell and for the halt.
pub proof fn walk_comes_to_a_halt(
    start: PlayerView,
    d: Direction,
    steps: u32,
    reach: nat,
    inputs: Seq<Input>,
    map: MapView,
)
    requires
        start.state == setting_out(d, steps),
        walk_reaches(map, start.position, d, steps, reach),
        forall|i: int| 0 <= i < inputs.len() ==> is_idle(#[trigger] inputs[i]) && inputs[i].dt >= 1,
        inputs.len() >= (reach + 1) * (WALKING_DURATION + 1),
    ensures
        ticked_all(start, inputs, map).state == PlayerState::Standing(d),
        ticked_all(start, inputs, map).position == stepped_by(start.position, d, reach),
{
    lemma_walk_runs_down(start, d, steps, reach, inputs, map);
    walk_stays_on_its_way(start, d, steps, reach, inputs, map);
    let end = ticked_all(start, inputs, map);
    assert(ticks_left(start, steps, reach) == (reach + 1) * (WALKING_DURATION + 1))
        by (nonlinear_arith)
        requires
            ticks_left(start, steps, reach) == reach * (WALKING_DURATION + 1) + WALKING_DURATION
                + 1,
    ;
    if let PlayerState::Walking { grid_count, .. } = end.state {
        assert((reach - (steps - grid_count)) * (WALKING_DURATION + 1) >= 0) by (nonlinear_arith)
            requires
                reach - (steps - grid_count) >= 0,
                WALKING_DURATION + 1 >= 0,
        ;
    }
}

/// How a walk into a blocked cell ends when the ticks are long. A player
/// who has set out for `steps` cells in the direction `d`, of which only the
/// first `reach` can be walked on, and is then left alone for ticks that
/// each last a whole step or longer, takes two ticks for each cell, and
/// stands in front of the blocked cell, looking at it, after
/// `2 * reach + 1` ticks.
pub proof fn walk_into_blocked_cell_ends(
    start: PlayerView,
    d: Direction,
    steps: u32,
    reach: nat,
    inputs: Seq<Input>,
    map: MapView,
)
    requires
        start.state == setting_out(d, steps),
        walk_reaches(map, start.position, d, steps, reach),
        reach < steps,
        inputs.len() == 2 * reach + 1,
        forall|i: int|
            0 <= i < inputs.len() ==> is_idle(#[trigger] inputs[i]) && inputs[i].dt
                >= WALKING_DURATION,
    ensures
        ticked_all(start, inputs, map).position == stepped_by(start.position, d, reach),
        ticked_all(start, inputs, map).state == PlayerState::Standing(d),
{
    lemma_slow_walk(start, d, steps, reach, inputs, map, reach);
    let arrived = ticked_all(start, inputs.take(2 * reach as int), map);
    assert(inputs.drop_last() =~= inputs.take(2 * reach as int));
    assert(stepped(arrived.position, d) == stepped_by(start.position, d, reach + 1));
}

/// After two long ticks for each of the first `taken` cells, the player
/// has landed on the last of them and has the whole time of the next step
/// before them.
proof fn lemma_slow_walk(
    start: PlayerView,
    d: Direction,
    steps: u32,
    reach: nat,
    inputs: Seq<Input>,
    map: MapView,
    taken: nat,
)
    requires
        start.state == setting_out(d, steps),
        walk_reaches(map, start.position, d, steps, reach),
        reach < steps,
        taken <= reach,
        inputs.len() >= 2 * taken,
        forall|i: int|
            0 <= i < inputs.len() ==> is_idle(#[trigger] inputs[i]) && inputs[i].dt
                >= WALKING_DURATION,
    ensures
        ({
            let arrived = ticked_all(start, inputs.take(2 * taken as int), map);
            &&& arrived.position == stepped_by(start.position, d, taken)
            &&& arrived.state matches PlayerState::Walking { direction, grid_count, timer, .. }
            &&& direction == d
            &&& grid_count == steps - taken
            &&& timer == WALKING_DURATION
        }),
    decreases taken,
{
    if taken == 0 {
        assert(inputs.take(0) =~= Seq::<Input>::empty());
        assert(ticked_all(start, inputs.take(0), map) == start);
    } else {
        lemma_slow_walk(start, d, steps, reach, inputs, map, (taken - 1) as nat);
        let n: int = 2 * taken as int;
        let before = ticked_all(start, inputs.take(n - 2), map);
        assert(inputs.take(n - 1).drop_last() =~= inputs.take(n - 2));
        assert(inputs.take(n - 1).last() == inputs[n - 2]);
        assert(inputs.take(n).drop_last() =~= inputs.take(n - 1));
        assert(inputs.take(n).last() == inputs[n - 1]);
        assert(is_idle(inputs[n - 2]) && is_idle(inputs[n - 1]));
        assert(stepped(before.position, d) == stepped_by(start.position, d, taken));
        assert(map.walkable(stepped_by(start.position, d, taken)));
        let waited = before.ticked(inputs[n - 2], map);
        assert(ticked_all(start, inputs.take(n - 1), map) == waited);
        assert(ticked_all(start, inputs.take(n), map) == waited.ticked(inputs[n - 1], map));
    }
}

} // verus!
