//! The screen shown before the game begins.

use vstd::prelude::*;
use crate::input::Input;

verus! {

#[derive(Debug)]
pub struct Splash {
    state: State,
}

/// Whether the player has asked for the game to begin.
#[derive(PartialEq, Eq, Structural, Clone, Copy, Debug)]
pub enum State {
    Waiting,
    Clicked,
}

/// Whether the input asks for the game to begin: the mouse button was let
/// go, or the return key is held down.
pub open spec fn begins(input: Input) -> bool {
    input.released is Some || input.enter
}

impl View for Splash {
    type V = State;

    closed spec fn view(&self) -> State {
        self.state
    }
}

impl Splash {
    pub fn new() -> (splash: Self)
        ensures
            splash@ == State::Waiting,
    {
        Splash { state: State::Waiting }
    }

    pub fn is_clicked(&self) -> (clicked: bool)
        ensures
            clicked == (self@ == State::Clicked),
    {
        match self.state {
            State::Waiting => false,
            State::Clicked => true,
        }
    }

    /// Takes note of the input of one tick. Once asked to begin, the
    /// screen stays so.
    pub fn update(&mut self, input: &Input)
        ensures
            final(self)@ == if old(self)@ == State::Clicked || begins(*input) {
                State::Clicked
            } else {
                State::Waiting
            },
    {
        if let State::Clicked = self.state {
            return ;
        }
        if input.released.is_some() {
            self.state = State::Clicked;
        }
        if input.enter {
            self.state = State::Clicked;
        }
    }
}

} // verus!
