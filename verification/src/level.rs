//! A level: a map, a puzzle, and the letters of the puzzle lying on the map.

use vstd::prelude::*;
use vstd::string::*;
use crate::collectible::{Collectible, Status};
use crate::constant::{COLLECTIBLE_Z, GATE_Z, MAP_Z, PLAYER_Z};
use crate::game_map::{
    is_map_of, map_is_drawn_below_its_door, rejection, GameMap, MapParseError, MapView,
};
use crate::gate::State;
use crate::input::Input;
use crate::player::{Player, PlayerView};
use crate::primitive::Position;
use crate::puzzle::{
    accepts, collected, pending, solved, solved_puzzle_refuses, Answered, CanCollect, Puzzle,
    PuzzleView, Sounds,
};
use crate::render::{LetterSprite, PlayerSprite, TileSprite};
use crate::tile_map::TileMap;

verus! {

#[derive(Debug)]
pub struct Level {
    index: u32,
    pub start_position: Position,
    map_file: &'static str,
    gate_position: Position,
    game_map: Option<GameMap>,
    puzzle: Puzzle,
    collectible: Vec<Collectible>,
}

/// Whether the puzzle of the level is solved.
#[derive(PartialEq, Eq, Structural, Clone, Copy, Debug)]
pub enum Solved {
    Yes,
    No,
}

/// What one tick of a level comes to.
#[derive(PartialEq, Eq, Structural, Clone, Copy, Debug)]
pub struct Progress {
    /// Whether the puzzle is solved after the tick.
    pub solved: Solved,
    /// The sound clips to start.
    pub sounds: Sounds,
}

/// What a level is.
pub struct LevelView {
    /// The number of the level, counted from 0.
    pub index: u32,
    /// The cell that the player begins on.
    pub start_position: Position,
    /// The file of the tile map.
    pub map_file: Seq<char>,
    /// The top cell of the door.
    pub gate_position: Position,
    /// The map, once its tile map has been read.
    pub game_map: Option<MapView>,
    pub puzzle: PuzzleView,
    /// The letters on the map, in the order in which they are offered to
    /// the puzzle.
    pub collectible: Seq<Collectible>,
}

/// The slots of the puzzle after a player on the cell `at` has run into the
/// first `n` letters of `items`: each letter that lies there is offered to
/// the puzzle, one after the other.
pub open spec fn offered(answer: Seq<Answered>, items: Seq<Collectible>, at: Position, n: int) -> Seq<
    Answered,
>
    decreases n,
{
    if n <= 0 {
        answer
    } else {
        let before = offered(answer, items, at, n - 1);
        if items[n - 1].hit_at(at) {
            collected(before, items[n - 1].letter)
        } else {
            before
        }
    }
}

/// The `i`-th letter of `items` after a player on the cell `at` has run
/// into the letters: it is picked up if it lies there and the puzzle, as the
/// letters before it left it, takes it.
pub open spec fn item_after(
    answer: Seq<Answered>,
    items: Seq<Collectible>,
    at: Position,
    i: int,
) -> Collectible {
    if items[i].hit_at(at) && accepts(offered(answer, items, at, i), items[i].letter) {
        items[i].picked()
    } else {
        items[i]
    }
}

/// The letters of `items` after a player on the cell `at` has run into them.
pub open spec fn items_after(answer: Seq<Answered>, items: Seq<Collectible>, at: Position) -> Seq<
    Collectible,
> {
    Seq::new(items.len(), |i: int| item_after(answer, items, at, i))
}

/// The sprite of each of the first `n` letters that has one.
pub open spec fn letter_sprites(items: Seq<Collectible>, n: int) -> Seq<LetterSprite>
    decreases n,
{
    if n <= 0 {
        Seq::empty()
    } else {
        match items[n - 1].sprite() {
            Some(sprite) => letter_sprites(items, n - 1).push(sprite),
            None => letter_sprites(items, n - 1),
        }
    }
}

/// What is drawn of a level.
#[derive(Debug)]
pub struct Scene {
    /// The tiles of the map and of the door, in the order in which they are
    /// drawn; none before the map is there.
    pub tiles: Vec<TileSprite>,
    /// The player; not drawn before the map is there.
    pub player: Option<PlayerSprite>,
    /// The letters that have not been picked up.
    pub letters: Vec<LetterSprite>,
}

impl Scene {
    /// Whether the scene is what is drawn of the level `level` with the
    /// player `player` on it: the map and the player once the map is there,
    /// and each letter that has not been picked up.
    pub open spec fn shows(self, level: LevelView, player: PlayerView) -> bool {
        &&& self.tiles@ == match level.game_map {
            Some(map) => map.sprites(),
            None => Seq::empty(),
        }
        &&& self.player == match level.game_map {
            Some(_) => Some(player.sprite()),
            None => None,
        }
        &&& self.letters@ == letter_sprites(level.collectible, level.collectible.len() as int)
    }
}

impl LevelView {
    /// Whether the clock of the puzzle is sound.
    pub open spec fn wf(self) -> bool {
        self.puzzle.wf()
    }

    /// The player after one tick of the level: they move on the map once
    /// it is there, and not before.
    pub open spec fn player_after(self, player: PlayerView, input: Input) -> PlayerView {
        match self.game_map {
            Some(map) => player.ticked(input, map),
            None => player,
        }
    }

    /// The level after one tick in which the player `player` moves. Before
    /// the map is there nothing happens. Once it is, the player moves, runs
    /// into the letters on the cell they have reached, the clock of the
    /// puzzle goes on, and the door opens if the puzzle is solved.
    pub open spec fn updated(self, player: PlayerView, input: Input) -> LevelView {
        match self.game_map {
            None => self,
            Some(map) => {
                let at = player.ticked(input, map).position;
                let answer = offered(
                    self.puzzle.answer,
                    self.collectible,
                    at,
                    self.collectible.len() as int,
                );
                LevelView {
                    index: self.index,
                    start_position: self.start_position,
                    map_file: self.map_file,
                    gate_position: self.gate_position,
                    game_map: Some(
                        if solved(answer) {
                            map.opened()
                        } else {
                            map
                        },
                    ),
                    puzzle: (PuzzleView {
                        answer,
                        tick: self.puzzle.tick,
                        instruction_played: self.puzzle.instruction_played,
                        word_played: self.puzzle.word_played,
                    }).ticked(input.dt),
                    collectible: items_after(self.puzzle.answer, self.collectible, at),
                }
            },
        }
    }

    /// The sound clips that a tick of `dt` milliseconds starts.
    pub open spec fn sounds(self, dt: u32) -> Sounds {
        if self.game_map is Some {
            self.puzzle.sounds(dt)
        } else {
            Sounds { instruction: false, word: false }
        }
    }

    /// Whether a player on the cell `at` is passing the door: the door is
    /// open and they stand on its top cell.
    pub open spec fn passing_the_gate(self, at: Position) -> bool {
        self.game_map matches Some(map) && map.gate.state == State::Opened && map.gate.position
            == at
    }

    /// The level with the map `map`.
    pub open spec fn with_map(self, map: MapView) -> LevelView {
        LevelView {
            index: self.index,
            start_position: self.start_position,
            map_file: self.map_file,
            gate_position: self.gate_position,
            game_map: Some(map),
            puzzle: self.puzzle,
            collectible: self.collectible,
        }
    }
}

/// The letter `letter`, not picked up, on the cell `(x, y)`.
pub open spec fn lying(letter: char, x: u32, y: u32) -> Collectible {
    Collectible {
        status: Status::NotCollected,
        position: Position { x, y },
        letter,
    }
}

/// The first level as it begins: the word APPLE, its letters spread over
/// the map.
pub open spec fn first_level() -> LevelView {
    LevelView {
        index: 0,
        start_position: Position { x: 0, y: 14 },
        map_file: "resources/tiled/level1.tmx"@,
        gate_position: Position { x: 24, y: 13 },
        game_map: None,
        puzzle: PuzzleView {
            answer: pending("APPLE"@),
            tick: 0,
            instruction_played: None,
            word_played: None,
        },
        collectible: seq![
            lying('A', 5, 7),
            lying('P', 10, 12),
            lying('P', 18, 7),
            lying('L', 17, 11),
            lying('E', 22, 11),
        ],
    }
}

/// The second level as it begins: the word JONATHAN, its letters in a row.
pub open spec fn second_level() -> LevelView {
    LevelView {
        index: 1,
        start_position: Position { x: 0, y: 14 },
        map_file: "resources/tiled/level2.tmx"@,
        gate_position: Position { x: 24, y: 14 },
        game_map: None,
        puzzle: PuzzleView {
            answer: pending("JONATHAN"@),
            tick: 0,
            instruction_played: None,
            word_played: None,
        },
        collectible: seq![
            lying('J', 5, 14),
            lying('O', 7, 14),
            lying('N', 8, 14),
            lying('A', 15, 14),
            lying('T', 18, 14),
            lying('H', 20, 14),
            lying('A', 21, 14),
            lying('N', 22, 14),
        ],
    }
}

/// The level with the number `level` as it begins, if there is one.
pub open spec fn level_number(level: int) -> Option<LevelView> {
    if level == 0 {
        Some(first_level())
    } else if level == 1 {
        Some(second_level())
    } else {
        None
    }
}

impl View for Level {
    type V = LevelView;

    closed spec fn view(&self) -> LevelView {
        LevelView {
            index: self.index,
            start_position: self.start_position,
            map_file: self.map_file@,
            gate_position: self.gate_position,
            game_map: match self.game_map {
                Some(map) => Some(map@),
                None => None,
            },
            puzzle: self.puzzle@,
            collectible: self.collectible@,
        }
    }
}

impl Level {
    /// Whether the clock of the puzzle is sound. Every level made here is,
    /// and stays so.
    pub open spec fn wf(&self) -> bool {
        self@.wf()
    }

    /// The level that the game begins with.
    pub fn start() -> (level: Level)
        ensures
            level@ == first_level(),
            level.wf(),
    {
        Self::level1()
    }

    /// The level with the number `level`, if there is one.
    pub fn new(level: u32) -> (made: Option<Level>)
        ensures
            match made {
                Some(l) => level_number(level as int) == Some(l@) && l.wf(),
                None => level_number(level as int) is None,
            },
    {
        match level {
            0 => Some(Self::level1()),
            1 => Some(Self::level2()),
            _ => None,
        }
    }

    /// The level after this one, if there is one.
    pub fn next_level(&self) -> (next: Option<Level>)
        ensures
            match next {
                Some(l) => level_number(self@.index + 1) == Some(l@) && l.wf(),
                None => level_number(self@.index + 1) is None,
            },
    {
        if self.index == u32::MAX {
            None
        } else {
            Self::new(self.index + 1)
        }
    }

    pub fn level2() -> (level: Self)
        ensures
            level@ == second_level(),
            level.wf(),
    {
        let puzzle = Puzzle::new(String::from_str("JONATHAN"));
        let collectible = vec![
            Collectible::new('J', Position::new(5, 14)),
            Collectible::new('O', Position::new(7, 14)),
            Collectible::new('N', Position::new(8, 14)),
            Collectible::new('A', Position::new(15, 14)),
            Collectible::new('T', Position::new(18, 14)),
            Collectible::new('H', Position::new(20, 14)),
            Collectible::new('A', Position::new(21, 14)),
            Collectible::new('N', Position::new(22, 14)),
        ];
        let level = Level {
            index: 1,
            start_position: Position::new(0, 14),
            map_file: "resources/tiled/level2.tmx",
            gate_position: Position::new(24, 14),
            game_map: None,
            puzzle,
            collectible,
        };
        assert(level@.collectible =~= second_level().collectible);
        level
    }

    pub fn level1() -> (level: Self)
        ensures
            level@ == first_level(),
            level.wf(),
    {
        let puzzle = Puzzle::new(String::from_str("APPLE"));
        let collectible = vec![
            Collectible::new('A', Position::new(5, 7)),
            Collectible::new('P', Position::new(10, 12)),
            Collectible::new('P', Position::new(18, 7)),
            Collectible::new('L', Position::new(17, 11)),
            Collectible::new('E', Position::new(22, 11)),
        ];
        let level = Level {
            index: 0,
            start_position: Position::new(0, 14),
            map_file: "resources/tiled/level1.tmx",
            gate_position: Position::new(24, 13),
            game_map: None,
            puzzle,
            collectible,
        };
        assert(level@.collectible =~= first_level().collectible);
        level
    }

    /// The file of the tile map of the level.
    pub fn map_file(&self) -> (file: &'static str)
        ensures
            file@ == self@.map_file,
    {
        self.map_file
    }

    /// The cell that the player begins on.
    pub fn start_position(&self) -> (position: Position)
        ensures
            position == self@.start_position,
    {
        self.start_position
    }

    /// The number of the level, counted from 0.
    pub fn index(&self) -> (index: u32)
        ensures
            index == self@.index,
    {
        self.index
    }

    /// Whether the map of the level is there.
    pub fn has_map(&self) -> (has: bool)
        ensures
            has == (self@.game_map is Some),
    {
        self.game_map.is_some()
    }

    /// The map of the level, once it is there.
    pub fn game_map(&self) -> (map: Option<&GameMap>)
        ensures
            match map {
                Some(m) => self@.game_map == Some(m@),
                None => self@.game_map is None,
            },
    {
        self.game_map.as_ref()
    }

    pub fn puzzle(&self) -> (puzzle: &Puzzle)
        ensures
            puzzle@ == self@.puzzle,
    {
        &self.puzzle
    }

    /// The letters on the map.
    pub fn collectibles(&self) -> (items: &Vec<Collectible>)
        ensures
            items@ == self@.collectible,
    {
        &self.collectible
    }

    /// Makes the map of the level from its tile map, with a shut gate. A
    /// tile map that cannot be made into a map leaves the level as it is.
    pub fn load_map(&mut self, map: &TileMap) -> (loaded: Result<(), MapParseError>)
        ensures
            match loaded {
                Ok(()) => {
                    &&& rejection(*map) is None
                    &&& final(self)@.game_map matches Some(made)
                    &&& is_map_of(made, *map, old(self)@.gate_position)
                    &&& final(self)@ == old(self)@.with_map(made)
                },
                Err(error) => rejection(*map) == Some(error) && final(self)@ == old(self)@,
            },
            final(self).wf() == old(self).wf(),
    {
        match GameMap::new(map, self.gate_position) {
            Ok(game_map) => {
                self.game_map = Some(game_map);
                Ok(())
            },
            Err(error) => Err(error),
        }
    }

    /// Moves the level and the player through one tick.
    pub fn update(&mut self, input: &Input, player: &mut Player) -> (progress: Progress)
        requires
            old(self).wf(),
            old(player).wf(),
        ensures
            final(player)@ == old(self)@.player_after(old(player)@, *input),
            final(self)@ == old(self)@.updated(old(player)@, *input),
            final(self).wf(),
            final(player).wf(),
            progress.solved == if solved(final(self)@.puzzle.answer) {
                Solved::Yes
            } else {
                Solved::No
            },
            progress.sounds == old(self)@.sounds(input.dt),
    {
        let mut sounds = Sounds { instruction: false, word: false };
        match self.game_map.take() {
            None => {},
            Some(mut game_map) => {
                player.update(input, &game_map);
                let ghost at = player@.position;
                let ghost answer = self.puzzle@.answer;
                let ghost items = self.collectible@;
                let ghost map = game_map@;
                let mut i: usize = 0;
                while i < self.collectible.len()
                    invariant
                        0 <= i <= items.len(),
                        self.collectible@.len() == items.len(),
                        at == player@.position,
                        game_map@ == map,
                        self.index == old(self).index,
                        self.start_position == old(self).start_position,
                        self.map_file == old(self).map_file,
                        self.gate_position == old(self).gate_position,
                        self.puzzle@ == (PuzzleView {
                            answer: offered(answer, items, at, i as int),
                            tick: old(self)@.puzzle.tick,
                            instruction_played: old(self)@.puzzle.instruction_played,
                            word_played: old(self)@.puzzle.word_played,
                        }),
                        forall|j: int|
                            0 <= j < i ==> #[trigger] self.collectible@[j] == item_after(
                                answer,
                                items,
                                at,
                                j,
                            ),
                        forall|j: int|
                            i <= j < items.len() ==> #[trigger] self.collectible@[j] == items[j],
                    decreases self.collectible.len() - i,
                {
                    let mut collectible = self.collectible[i];
                    if collectible.collide_with(player) {
                        match self.puzzle.collect(collectible.letter) {
                            CanCollect::Yes => {
                                collectible.collect();
                                self.collectible.set(i, collectible);
                            },
                            CanCollect::No => {},
                        }
                    }
                    i = i + 1;
                }
                assert(self.collectible@ =~= items_after(answer, items, at));
                sounds = self.puzzle.update(input.dt);
                if self.puzzle.is_solved() {
                    game_map.open_gate();
                }
                self.game_map = Some(game_map);
            },
        }
        let solved = if self.puzzle.is_solved() {
            Solved::Yes
        } else {
            Solved::No
        };
        Progress { solved, sounds }
    }

    /// Whether the player is passing the door: it is open and they stand on
    /// its top cell.
    pub fn passing_the_gate(&self, player: &Player) -> (passing: bool)
        ensures
            passing == self@.passing_the_gate(player@.position),
    {
        match &self.game_map {
            Some(game_map) => game_map.is_gate_open() && game_map.gate_position()
                == player.position(),
            None => false,
        }
    }

    /// What to draw of the level and of the player on it.
    pub fn draw(&self, player: &Player) -> (scene: Scene)
        ensures
            scene.shows(self@, player@),
    {
        let (tiles, player_sprite) = match &self.game_map {
            Some(game_map) => (game_map.draw(), Some(player.draw())),
            None => (Vec::new(), None),
        };
        let mut letters: Vec<LetterSprite> = Vec::new();
        let mut i: usize = 0;
        while i < self.collectible.len()
            invariant
                0 <= i <= self.collectible@.len(),
                letters@ == letter_sprites(self.collectible@, i as int),
            decreases self.collectible.len() - i,
        {
            if let Some(sprite) = self.collectible[i].draw() {
                letters.push(sprite);
            }
            i = i + 1;
        }
        Scene { tiles, player: player_sprite, letters }
    }
}

/// Once the door of a level is open, no tick shuts it again.
pub proof fn open_door_stays_open(level: LevelView, player: PlayerView, input: Input)
    requires
        level.game_map matches Some(map) && map.gate.state == State::Opened,
    ensures
        level.updated(player, input).game_map matches Some(map) && map.gate.state
            == State::Opened,
{
}

/// After a tick of a level whose map is there, the door is open if the
/// puzzle is solved.
pub proof fn solved_puzzle_opens_door(level: LevelView, player: PlayerView, input: Input)
    requires
        level.game_map is Some,
        solved(level.updated(player, input).puzzle.answer),
    ensures
        level.updated(player, input).game_map matches Some(map) && map.gate.state
            == State::Opened,
{
}

/// A solved puzzle is not changed by the letters the player runs into.
proof fn lemma_offered_to_solved(answer: Seq<Answered>, items: Seq<Collectible>, at: Position, n: int)
    requires
        solved(answer),
    ensures
        offered(answer, items, at, n) == answer,
    decreases n,
{
    if n > 0 {
        lemma_offered_to_solved(answer, items, at, n - 1);
        solved_puzzle_refuses(answer, items[n - 1].letter);
    }
}

/// Once the puzzle of a level is solved, it stays solved, tick after tick.
pub proof fn solved_level_stays_solved(level: LevelView, player: PlayerView, input: Input)
    requires
        solved(level.puzzle.answer),
    ensures
        solved(level.updated(player, input).puzzle.answer),
        level.updated(player, input).puzzle.answer == level.puzzle.answer,
{
    if let Some(map) = level.game_map {
        lemma_offered_to_solved(
            level.puzzle.answer,
            level.collectible,
            player.ticked(input, map).position,
            level.collectible.len() as int,
        );
    }
}

/// A tick leaves every letter where it lies, and a letter picked up stays
/// picked up.
pub proof fn picked_letter_stays_picked(level: LevelView, player: PlayerView, input: Input, i: int)
    requires
        0 <= i < level.collectible.len(),
    ensures
        level.updated(player, input).collectible.len() == level.collectible.len(),
        level.updated(player, input).collectible[i].position == level.collectible[i].position,
        level.updated(player, input).collectible[i].letter == level.collectible[i].letter,
        level.collectible[i].status == Status::Collected ==> level.updated(
            player,
            input,
        ).collectible[i] == level.collectible[i],
{
}

/// The letters that have one are drawn at the depth of the letters.
proof fn lemma_letters_depth(items: Seq<Collectible>, n: int)
    ensures
        forall|i: int|
            0 <= i < letter_sprites(items, n).len() ==> (#[trigger] letter_sprites(items, n)[i]).z
                == COLLECTIBLE_Z,
    decreases n,
{
    if n > 0 {
        lemma_letters_depth(items, n - 1);
        let before = letter_sprites(items, n - 1);
        let now = letter_sprites(items, n);
        assert forall|i: int| 0 <= i < now.len() implies (#[trigger] now[i]).z
            == COLLECTIBLE_Z by {
            if i < before.len() {
                assert(now[i] == before[i]);
            }
        }
    }
}

/// What is drawn of a level lies in fixed layers: the tiles of the map at
/// the bottom, above them the letters, the door, and the player on top.
pub proof fn scene_is_layered(scene: Scene, level: LevelView, player: PlayerView)
    requires
        scene.shows(level, player),
    ensures
        MAP_Z < COLLECTIBLE_Z < GATE_Z
            < PLAYER_Z,
        forall|i: int|
            0 <= i < scene.tiles@.len() ==> (#[trigger] scene.tiles@[i]).z == MAP_Z
                || scene.tiles@[i].z == GATE_Z,
        forall|i: int|
            0 <= i < scene.letters@.len() ==> (#[trigger] scene.letters@[i]).z
                == COLLECTIBLE_Z,
        scene.player matches Some(sprite) ==> sprite.z == PLAYER_Z,
{
    lemma_letters_depth(level.collectible, level.collectible.len() as int);
    if let Some(map) = level.game_map {
        map_is_drawn_below_its_door(map);
    }
}

} // verus!
