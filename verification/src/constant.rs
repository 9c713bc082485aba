//! The numbers the simulation and its renderer agree on.

use vstd::prelude::*;

verus! {

/// Width of a tile in the tile sheet, in pixels.
pub const TILE_WIDTH: u32 = 16;

/// Height of a tile in the tile sheet, in pixels.
pub const TILE_HEIGHT: u32 = 16;

/// How long one step from a cell to the next takes, in milliseconds.
pub const WALKING_DURATION: i64 = 300;

/// How much larger than in the tile sheet a tile is drawn.
pub const SCALING_FACTOR: u32 = 2;

/// Width of a cell on screen, in pixels.
pub const GRID_WIDTH: u32 = TILE_WIDTH * SCALING_FACTOR;

/// Height of a cell on screen, in pixels.
pub const GRID_HEIGHT: u32 = TILE_HEIGHT * SCALING_FACTOR;

pub const WINDOW_WIDTH: u32 = 800;

pub const WINDOW_HEIGHT: u32 = 600;

/// Depth of the map's tiles.
pub const MAP_Z: u32 = 1;

/// Depth of the puzzle's text.
pub const PUZZLE_Z: u32 = 4;

/// Depth of the letters lying on the map.
pub const COLLECTIBLE_Z: u32 = 10;

/// Depth of the door.
pub const GATE_Z: u32 = 11;

/// Depth of the player.
pub const PLAYER_Z: u32 = 12;

} // verus!
