//! The line that shows how far the word has been collected.

use vstd::prelude::*;
pub use crate::puzzle::{Answered, CanCollect};
use crate::puzzle::{
    accepts, collected, cursor, find_slot, lay_out, lemma_cursor, pending, puzzle_sprites, render,
    solved, text_of, to_answer, PuzzleSprites,
};

verus! {

#[derive(Debug)]
pub struct Instruction {
    pub answer: Vec<Answered>,
}

impl Instruction {
    /// The line for the word `word`, with every letter still to be found.
    pub fn new(word: String) -> (instruction: Self)
        ensures
            instruction.answer@ == pending(word@),
    {
        Instruction { answer: to_answer(word.as_str()) }
    }

    /// The text of the line.
    pub fn answer_to_render(&self) -> (text: Vec<char>)
        ensures
            text@ == text_of(self.answer@),
    {
        render(&self.answer)
    }

    /// Where the line and the instructions above it are drawn, given how
    /// high the renderer makes each.
    pub fn draw(&self, instruction_height: u32, answer_height: u32) -> (sprites: PuzzleSprites)
        ensures
            sprites == puzzle_sprites(instruction_height, answer_height),
    {
        lay_out(instruction_height, answer_height)
    }

    /// Offers `letter` to the line, which takes it if it is the letter of
    /// the first slot still to be found, and refuses it otherwise.
    pub fn collect(&mut self, letter: char) -> (taken: CanCollect)
        ensures
            final(self).answer@ == collected(old(self).answer@, letter),
            taken == if accepts(old(self).answer@, letter) {
                CanCollect::Yes
            } else {
                CanCollect::No
            },
            solved(old(self).answer@) ==> taken == CanCollect::No && final(self).answer@ == old(
                self,
            ).answer@,
    {
        proof {
            lemma_cursor(self.answer@);
        }
        let index = self.find(letter);
        match index {
            None => CanCollect::No,
            Some(index) => {
                self.answer.set(index, Answered::Yes(letter));
                CanCollect::Yes
            },
        }
    }

    /// The slot that takes `letter`, if the line takes it.
    pub fn find(&self, letter: char) -> (slot: Option<usize>)
        ensures
            match slot {
                Some(index) => accepts(self.answer@, letter) && index == cursor(self.answer@),
                None => !accepts(self.answer@, letter),
            },
    {
        find_slot(&self.answer, letter)
    }
}

} // verus!
