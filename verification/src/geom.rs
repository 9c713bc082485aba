//! Whole-pixel geometry handed to the renderer.

use vstd::prelude::*;

verus! {

/// A point of the screen or of the tile sheet, in pixels.
#[derive(PartialEq, Eq, Structural, Clone, Copy, Debug)]
pub struct Vector {
    pub x: i64,
    pub y: i64,
}

impl Vector {
    pub fn new(x: i64, y: i64) -> (v: Self)
        ensures
            v.x == x,
            v.y == y,
    {
        Vector { x, y }
    }
}

/// A rectangle with its sides along the axes: its position and its size.
#[derive(PartialEq, Eq, Structural, Clone, Copy, Debug)]
pub struct Rectangle {
    pub pos: Vector,
    pub size: Vector,
}

impl Rectangle {
    pub fn new(pos: (i64, i64), size: (i64, i64)) -> (r: Self)
        ensures
            r.pos == (Vector { x: pos.0, y: pos.1 }),
            r.size == (Vector { x: size.0, y: size.1 }),
    {
        Rectangle { pos: Vector { x: pos.0, y: pos.1 }, size: Vector { x: size.0, y: size.1 } }
    }
}

} // verus!
