//! What the simulation asks the renderer to draw.

use vstd::prelude::*;
use crate::geom::{Rectangle, Vector};

verus! {

/// A tile cut out of the tile sheet and drawn on screen.
#[derive(PartialEq, Eq, Structural, Clone, Copy, Debug)]
pub struct TileSprite {
    /// The rectangle of the tile on screen, before it is enlarged.
    pub area: Rectangle,
    /// The part of the tile sheet that is drawn.
    pub source: Rectangle,
    /// The factor by which the tile is enlarged in both directions.
    pub scale: u32,
    /// The depth: what has the larger one is drawn in front.
    pub z: u32,
}

/// A single letter drawn as text.
#[derive(PartialEq, Eq, Structural, Clone, Copy, Debug)]
pub struct LetterSprite {
    pub letter: char,
    /// The point of the screen that the letter is centred on.
    pub center: Vector,
    /// The height of the type, in pixels.
    pub size: u32,
    pub z: u32,
}

/// The lists of pictures the player is drawn from.
#[derive(PartialEq, Eq, Structural, Clone, Copy, Debug)]
pub enum Sprites {
    StandingSide,
    StandingUp,
    StandingDown,
    WalkingSide,
    WalkingUp,
    WalkingDown,
}

impl Sprites {
    /// How many pictures the list holds.
    pub open spec fn count(self) -> int {
        match self {
            Sprites::StandingSide => 2,
            Sprites::StandingUp => 2,
            Sprites::StandingDown => 2,
            Sprites::WalkingSide => 4,
            Sprites::WalkingUp => 4,
            Sprites::WalkingDown => 4,
        }
    }

    pub fn len(&self) -> (n: usize)
        ensures
            n == self.count(),
    {
        match self {
            Sprites::StandingSide => 2,
            Sprites::StandingUp => 2,
            Sprites::StandingDown => 2,
            Sprites::WalkingSide => 4,
            Sprites::WalkingUp => 4,
            Sprites::WalkingDown => 4,
        }
    }
}

/// The picture of the player.
#[derive(PartialEq, Eq, Structural, Clone, Copy, Debug)]
pub struct PlayerSprite {
    /// The list the picture is taken from, and its place in that list.
    pub sprites: Sprites,
    pub index: usize,
    /// The point of the screen that the picture is centred on.
    pub center: Vector,
    pub scale: u32,
    /// Whether the picture is mirrored, to look left.
    pub flipped: bool,
    pub z: u32,
}

/// Where and how large a line of text is drawn.
#[derive(PartialEq, Eq, Structural, Clone, Copy, Debug)]
pub struct TextSprite {
    /// The point of the screen that the line is centred on.
    pub center: Vector,
    /// The height of the type, in pixels.
    pub size: u32,
    pub z: u32,
}

} // verus!
