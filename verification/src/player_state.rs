//! The two states of the player: standing, or walking towards the next cell.

use vstd::prelude::*;
use crate::direction::Direction;

verus! {

/// What the player is doing. The step counter, the timers and the animation
/// frame exist only while walking.
#[derive(PartialEq, Eq, Structural, Clone, Copy, Debug)]
pub enum PlayerState {
    Standing(Direction),
    Walking {
        direction: Direction,
        /// Steps still to take, the one under way included.
        grid_count: u32,
        /// Milliseconds left of the step under way; the step lands once this
        /// is zero or less.
        timer: i64,
        /// Frame of the walking animation, counted from the start of the walk.
        sprites_idx: usize,
        /// Milliseconds since the frame last changed.
        tick: u64,
    },
}

impl PlayerState {
    /// The direction the player looks in.
    pub open spec fn facing(self) -> Direction {
        match self {
            PlayerState::Standing(direction) => direction,
            PlayerState::Walking { direction, .. } => direction,
        }
    }

    /// Sets the animation frame of a walk; a standing player has none.
    pub fn sprites_idx(&mut self, new_sprites_idx: usize)
        ensures
            *final(self) == match *old(self) {
                PlayerState::Standing(direction) => PlayerState::Standing(direction),
                PlayerState::Walking { direction, grid_count, timer, sprites_idx, tick } => (
                PlayerState::Walking {
                    direction,
                    grid_count,
                    timer,
                    sprites_idx: new_sprites_idx,
                    tick,
                }),
            },
    {
        if let PlayerState::Walking { direction, grid_count, timer, sprites_idx: _, tick } = *self {
            *self = PlayerState::Walking {
                direction,
                grid_count,
                timer,
                sprites_idx: new_sprites_idx,
                tick,
            };
        }
    }

    /// Sets the time left of the step under way; a standing player has none.
    pub fn timer(&mut self, new_timer: i64)
        ensures
            *final(self) == match *old(self) {
                PlayerState::Standing(direction) => PlayerState::Standing(direction),
                PlayerState::Walking { direction, grid_count, timer, sprites_idx, tick } => (
                PlayerState::Walking {
                    direction,
                    grid_count,
                    timer: new_timer,
                    sprites_idx,
                    tick,
                }),
            },
    {
        if let PlayerState::Walking { direction, grid_count, timer: _, sprites_idx, tick } = *self {
            *self = PlayerState::Walking {
                direction,
                grid_count,
                timer: new_timer,
                sprites_idx,
                tick,
            };
        }
    }

    /// Sets the number of steps still to take; a standing player has none.
    pub fn grid_count(&mut self, new_grid_count: u32)
        ensures
            *final(self) == match *old(self) {
                PlayerState::Standing(direction) => PlayerState::Standing(direction),
                PlayerState::Walking { direction, grid_count, timer, sprites_idx, tick } => (
                PlayerState::Walking {
                    direction,
                    grid_count: new_grid_count,
                    timer,
                    sprites_idx,
                    tick,
                }),
            },
    {
        if let PlayerState::Walking { direction, grid_count: _, timer, sprites_idx, tick } = *self {
            *self = PlayerState::Walking {
                direction,
                grid_count: new_grid_count,
                timer,
                sprites_idx,
                tick,
            };
        }
    }

    /// Sets the time since the animation frame last changed; a standing
    /// player has none.
    pub fn tick(&mut self, new_tick: u64)
        ensures
            *final(self) == match *old(self) {
                PlayerState::Standing(direction) => PlayerState::Standing(direction),
                PlayerState::Walking { direction, grid_count, timer, sprites_idx, tick } => (
                PlayerState::Walking {
                    direction,
                    grid_count,
                    timer,
                    sprites_idx,
                    tick: new_tick,
                }),
            },
    {
        if let PlayerState::Walking { direction, grid_count, timer, sprites_idx, tick: _ } = *self {
            *self = PlayerState::Walking {
                direction,
                grid_count,
                timer,
                sprites_idx,
                tick: new_tick,
            };
        }
    }

    /// The state of a player who stops: standing, looking where they looked.
    pub fn stop(current_state: &Self) -> (stopped: Self)
        ensures
            stopped == PlayerState::Standing(current_state.facing()),
    {
        match current_state {
            PlayerState::Walking { direction, .. } => PlayerState::Standing(*direction),
            PlayerState::Standing(direction) => PlayerState::Standing(*direction),
        }
    }
}

} // verus!
