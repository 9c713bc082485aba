//! What the player does to the game in one tick.

use vstd::prelude::*;
use crate::direction::Direction;
use crate::geom::Vector;

verus! {

/// The time that has passed since the last tick, and the keys and the
/// mouse as they are now.
#[derive(PartialEq, Eq, Structural, Clone, Copy, Debug)]
pub struct Input {
    /// Milliseconds since the last tick.
    pub dt: u32,
    /// Whether each arrow key is held down.
    pub left: bool,
    pub right: bool,
    pub up: bool,
    pub down: bool,
    /// Whether the return key is held down.
    pub enter: bool,
    /// Where on screen the mouse button was let go in this tick, if it was.
    pub released: Option<Vector>,
}

impl Input {
    /// The direction asked for by the arrow keys: of those held down, the
    /// first of right, left, up, down.
    pub open spec fn held(self) -> Option<Direction> {
        if self.right {
            Some(Direction::Right)
        } else if self.left {
            Some(Direction::Left)
        } else if self.up {
            Some(Direction::Up)
        } else if self.down {
            Some(Direction::Down)
        } else {
            None
        }
    }

    /// A tick of `dt` milliseconds in which no key is held and the mouse is
    /// left alone.
    pub fn idle(dt: u32) -> (input: Self)
        ensures
            input == (Input {
                dt,
                left: false,
                right: false,
                up: false,
                down: false,
                enter: false,
                released: None,
            }),
    {
        Input { dt, left: false, right: false, up: false, down: false, enter: false, released: None }
    }

    /// The direction asked for by the arrow keys, if any is held down.
    pub fn held_direction(&self) -> (direction: Option<Direction>)
        ensures
            direction == self.held(),
    {
        if self.right {
            Some(Direction::Right)
        } else if self.left {
            Some(Direction::Left)
        } else if self.up {
            Some(Direction::Up)
        } else if self.down {
            Some(Direction::Down)
        } else {
            None
        }
    }
}

} // verus!
