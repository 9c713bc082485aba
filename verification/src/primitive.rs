//! Integer grid primitives.

use vstd::prelude::*;

verus! {

/// A width and a height, in pixels.
#[derive(PartialEq, Eq, Structural, Clone, Copy, Debug)]
pub struct Dimension {
    pub width: u32,
    pub height: u32,
}

impl Dimension {
    pub fn new(width: u32, height: u32) -> (d: Self)
        ensures
            d.width == width,
            d.height == height,
    {
        Dimension { width, height }
    }
}

/// A cell of the grid. Two positions are equal when their coordinates are.
#[derive(PartialEq, Eq, Structural, Clone, Copy, Debug)]
pub struct Position {
    pub x: u32,
    pub y: u32,
}

impl Position {
    pub fn new(x: u32, y: u32) -> (p: Self)
        ensures
            p.x == x,
            p.y == y,
    {
        Position { x, y }
    }

    /// Whether moving by `(dx, dy)` stays inside the coordinate range.
    pub open spec fn can_add(self, dx: int, dy: int) -> bool {
        &&& 0 <= self.x + dx <= u32::MAX
        &&& 0 <= self.y + dy <= u32::MAX
    }

    /// The position `(x, y)` cells away. The caller keeps the result inside
    /// the coordinate range; stepping below zero is never asked for.
    pub fn add(&self, x: i32, y: i32) -> (p: Self)
        requires
            self.can_add(x as int, y as int),
        ensures
            p.x == self.x + x,
            p.y == self.y + y,
    {
        let nx: i64 = self.x as i64 + x as i64;
        let ny: i64 = self.y as i64 + y as i64;
        Position { x: nx as u32, y: ny as u32 }
    }
}

} // verus!
