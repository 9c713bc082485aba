//! A deterministic tile-world simulation: a player walks a layered tile map,
//! picks up letters in the order of a target word, and thereby opens the door
//! to the next level.
//!
//! Every function of this crate is verified. Time is counted in whole
//! milliseconds and pixels in whole numbers, so that each rule of the
//! simulation is an exact statement about integers.

pub mod collectible;
pub mod constant;
pub mod direction;
pub mod game;
pub mod game_layer;
pub mod game_map;
pub mod gate;
pub mod geom;
pub mod grid;
pub mod input;
pub mod instruction;
pub mod level;
pub mod player;
pub mod player_state;
pub mod primitive;
pub mod puzzle;
pub mod render;
pub mod splash;
pub mod tile_map;
