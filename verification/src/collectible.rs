//! A letter lying on a cell of the map.

use vstd::prelude::*;
use crate::constant::COLLECTIBLE_Z;
use crate::grid::{letter_area, Grid};
use crate::player::Player;
use crate::primitive::Position;
use crate::render::LetterSprite;

verus! {

/// The height of the type of a letter on the map, in pixels.
pub const LETTER_SIZE: u32 = 24;

#[derive(PartialEq, Eq, Structural, Clone, Copy, Debug)]
pub struct Collectible {
    pub status: Status,
    pub position: Position,
    pub letter: char,
}

#[derive(PartialEq, Eq, Structural, Clone, Copy, Debug)]
pub enum Status {
    NotCollected,
    Collected,
}

impl Collectible {
    /// Whether a player on the cell `at` runs into the letter: it lies
    /// there and has not been picked up.
    pub open spec fn hit_at(self, at: Position) -> bool {
        self.status == Status::NotCollected && self.position == at
    }

    /// The same letter, picked up.
    pub open spec fn picked(self) -> Collectible {
        Collectible { status: Status::Collected, position: self.position, letter: self.letter }
    }

    /// What is drawn of the letter: nothing once it is picked up.
    pub open spec fn sprite(self) -> Option<LetterSprite> {
        if self.status == Status::Collected {
            None
        } else {
            Some(
                LetterSprite {
                    letter: self.letter,
                    center: letter_area(self.position).pos,
                    size: LETTER_SIZE,
                    z: COLLECTIBLE_Z,
                },
            )
        }
    }

    /// The letter `letter` lying on the cell `position`.
    pub fn new(letter: char, position: Position) -> (collectible: Self)
        ensures
            collectible == (Collectible { status: Status::NotCollected, position, letter }),
    {
        Collectible { status: Status::NotCollected, position, letter }
    }

    /// Picks the letter up. A letter picked up stays so.
    pub fn collect(&mut self)
        ensures
            *final(self) == old(self).picked(),
    {
        self.status = Status::Collected;
    }

    /// Whether the player runs into the letter.
    pub fn collide_with(&self, player: &Player) -> (hit: bool)
        ensures
            hit == self.hit_at(player@.position),
    {
        self.status == Status::NotCollected && self.position == player.position()
    }

    /// The letter to draw, unless it has been picked up.
    pub fn draw(&self) -> (sprite: Option<LetterSprite>)
        ensures
            sprite == self.sprite(),
    {
        if let Status::Collected = self.status {
            return None;
        }
        let rectangle = Grid::to_collectible_coordinate(&self.position);
        Some(
            LetterSprite {
                letter: self.letter,
                center: rectangle.pos,
                size: LETTER_SIZE,
                z: COLLECTIBLE_Z,
            },
        )
    }
}

} // verus!
