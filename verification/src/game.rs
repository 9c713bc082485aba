//! The game: a splash screen, then one level after the other.

use vstd::prelude::*;
use crate::game_map::{is_map_of, rejection, MapParseError};
use crate::input::Input;
use crate::level::{level_number, Level, LevelView, Scene};
use crate::player::{Player, PlayerView};
use crate::puzzle::Sounds;
use crate::splash::{begins, Splash, State};
use crate::tile_map::TileMap;

verus! {

/// What the game shows.
#[derive(PartialEq, Eq, Structural, Clone, Copy, Debug)]
pub enum GameState {
    /// The splash screen, until the player asks for the game to begin.
    Splash,
    /// A level.
    Playing,
    /// The end: the last level has been cleared.
    Finished,
}

#[derive(Debug)]
pub struct RoboRex {
    player: Player,
    level: Level,
    state: GameState,
    splash: Splash,
}

/// What a game is. The player outlives the levels.
pub struct GameView {
    pub player: PlayerView,
    pub level: LevelView,
    pub state: GameState,
    pub splash: State,
}

impl GameView {
    /// Whether the timers of the player and the clock of the puzzle are in
    /// range.
    pub open spec fn wf(self) -> bool {
        self.player.wf() && self.level.wf()
    }

    /// The game after a tick on the splash screen: the game begins as soon
    /// as the player asks for it.
    pub open spec fn splashed(self, input: Input) -> GameView {
        if self.splash == State::Clicked || begins(input) {
            GameView {
                player: self.player,
                level: self.level,
                state: GameState::Playing,
                splash: State::Clicked,
            }
        } else {
            self
        }
    }

    /// The game after a tick of its level. When the player passes the open
    /// gate, the next level begins with the player on its first cell, or,
    /// after the last level, the game is over.
    pub open spec fn played(self, input: Input) -> GameView {
        let player = self.level.player_after(self.player, input);
        let level = self.level.updated(self.player, input);
        if level.passing_the_gate(player.position) {
            match level_number(level.index + 1) {
                Some(next) => GameView {
                    player: player.at(next.start_position),
                    level: next,
                    state: GameState::Playing,
                    splash: self.splash,
                },
                None => GameView {
                    player,
                    level,
                    state: GameState::Finished,
                    splash: self.splash,
                },
            }
        } else {
            GameView { player, level, state: GameState::Playing, splash: self.splash }
        }
    }

    /// The game after one tick.
    pub open spec fn updated(self, input: Input) -> GameView {
        match self.state {
            GameState::Splash => self.splashed(input),
            GameState::Playing => self.played(input),
            GameState::Finished => self,
        }
    }

    /// The sound clips that a tick starts.
    pub open spec fn sounds(self, input: Input) -> Sounds {
        if self.state == GameState::Playing {
            self.level.sounds(input.dt)
        } else {
            Sounds { instruction: false, word: false }
        }
    }
}

impl View for RoboRex {
    type V = GameView;

    closed spec fn view(&self) -> GameView {
        GameView {
            player: self.player@,
            level: self.level@,
            state: self.state,
            splash: self.splash@,
        }
    }
}

impl RoboRex {
    /// Whether the timers of the game are in range. Every game made by
    /// `new` is, and stays so.
    pub open spec fn wf(&self) -> bool {
        self@.wf()
    }

    /// A game on its splash screen, with the player on the first cell of
    /// the first level.
    pub fn new() -> (game: Self)
        ensures
            game@ == (GameView {
                player: Player::new_view().at(level_number(0)->0.start_position),
                level: level_number(0)->0,
                state: GameState::Splash,
                splash: State::Waiting,
            }),
            game.wf(),
    {
        let splash = Splash::new();
        let level = Level::start();
        let mut player = Player::new();
        player.place(level.start_position());
        RoboRex { player, level, splash, state: GameState::Splash }
    }

    /// Begins the level `level`, with the player on its first cell.
    fn start_level(&mut self, level: Level)
        ensures
            final(self)@ == (GameView {
                player: old(self)@.player.at(level@.start_position),
                level: level@,
                state: old(self)@.state,
                splash: old(self)@.splash,
            }),
    {
        let start = level.start_position();
        self.level = level;
        self.player.place(start);
    }

    fn update_playing(&mut self, input: &Input) -> (sounds: Sounds)
        requires
            old(self).wf(),
            old(self)@.state == GameState::Playing,
        ensures
            final(self)@ == old(self)@.played(*input),
            final(self).wf(),
            sounds == old(self)@.level.sounds(input.dt),
    {
        let progress = self.level.update(input, &mut self.player);
        if self.level.passing_the_gate(&self.player) {
            let next_level = self.level.next_level();
            match next_level {
                Some(level) => self.start_level(level),
                None => {
                    self.state = GameState::Finished;
                },
            }
        }
        progress.sounds
    }

    fn update_splash(&mut self, input: &Input)
        requires
            old(self)@.state == GameState::Splash,
        ensures
            final(self)@ == old(self)@.splashed(*input),
    {
        self.splash.update(input);
        if self.splash.is_clicked() {
            self.state = GameState::Playing;
        }
    }

    /// Moves the game through one tick and says which sound clips to start.
    pub fn update(&mut self, input: &Input) -> (sounds: Sounds)
        requires
            old(self).wf(),
        ensures
            final(self)@ == old(self)@.updated(*input),
            final(self).wf(),
            sounds == old(self)@.sounds(*input),
    {
        match self.state {
            GameState::Splash => {
                self.update_splash(input);
                Sounds { instruction: false, word: false }
            },
            GameState::Playing => self.update_playing(input),
            GameState::Finished => Sounds { instruction: false, word: false },
        }
    }

    /// Makes the map of the level being played from its tile map.
    pub fn load_map(&mut self, map: &TileMap) -> (loaded: Result<(), MapParseError>)
        ensures
            match loaded {
                Ok(()) => {
                    &&& rejection(*map) is None
                    &&& final(self)@.level.game_map matches Some(made)
                    &&& is_map_of(made, *map, old(self)@.level.gate_position)
                    &&& final(self)@ == (GameView {
                        player: old(self)@.player,
                        level: old(self)@.level.with_map(made),
                        state: old(self)@.state,
                        splash: old(self)@.splash,
                    })
                },
                Err(error) => rejection(*map) == Some(error) && final(self)@ == old(self)@,
            },
            final(self).wf() == old(self).wf(),
    {
        self.level.load_map(map)
    }

    /// What to draw of the level being played; nothing on the splash
    /// screen and once the game is over.
    pub fn draw(&self) -> (scene: Option<Scene>)
        ensures
            match scene {
                Some(scene) => self@.state == GameState::Playing && scene.shows(
                    self@.level,
                    self@.player,
                ),
                None => self@.state != GameState::Playing,
            },
    {
        match self.state {
            GameState::Playing => Some(self.level.draw(&self.player)),
            _ => None,
        }
    }

    pub fn state(&self) -> (state: GameState)
        ensures
            state == self@.state,
    {
        self.state
    }

    pub fn player(&self) -> (player: &Player)
        ensures
            player@ == self@.player,
    {
        &self.player
    }

    /// The level being played.
    pub fn level(&self) -> (level: &Level)
        ensures
            level@ == self@.level,
    {
        &self.level
    }
}

} // verus!
