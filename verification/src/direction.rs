//! The four directions of the grid.

use vstd::prelude::*;

verus! {

/// A facing, and at the same time a step of one cell.
#[derive(PartialEq, Eq, Structural, Clone, Copy, Debug)]
pub enum Direction {
    Left,
    Right,
    Up,
    Down,
}

impl Direction {
    /// The horizontal part of the unit step: `y` grows downwards, `x` to the right.
    pub open spec fn dx(self) -> int {
        match self {
            Direction::Left => -1,
            Direction::Right => 1,
            Direction::Up => 0,
            Direction::Down => 0,
        }
    }

    /// The vertical part of the unit step.
    pub open spec fn dy(self) -> int {
        match self {
            Direction::Left => 0,
            Direction::Right => 0,
            Direction::Up => -1,
            Direction::Down => 1,
        }
    }

    /// The direction as a unit step vector.
    pub fn unit(self) -> (v: (i32, i32))
        ensures
            v.0 == self.dx(),
            v.1 == self.dy(),
    {
        match self {
            Direction::Left => (-1, 0),
            Direction::Right => (1, 0),
            Direction::Up => (0, -1),
            Direction::Down => (0, 1),
        }
    }
}

} // verus!
