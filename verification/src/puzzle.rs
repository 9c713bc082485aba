//! The puzzle of a level: a word whose letters are picked up from left to right.

use vstd::prelude::*;
use vstd::string::*;
use crate::constant::{PUZZLE_Z, WINDOW_HEIGHT, WINDOW_WIDTH};
use crate::geom::Vector;
use crate::render::TextSprite;

verus! {

/// One letter of the word: still to be found, or found.
#[derive(PartialEq, Eq, Structural, Clone, Copy, Debug)]
pub enum Answered {
    No(char),
    Yes(char),
}

impl Answered {
    /// The slot of a letter that is still to be found.
    pub open spec fn unfound(letter: char) -> Answered {
        Answered::No(letter)
    }

    /// What is shown for the slot: its letter once found, a blank before.
    pub open spec fn rendered(self) -> char {
        match self {
            Answered::Yes(letter) => letter,
            Answered::No(_) => '_',
        }
    }

    pub fn to_rendered_char(&self) -> (shown: char)
        ensures
            shown == self.rendered(),
    {
        match *self {
            Answered::Yes(letter) => letter,
            Answered::No(_) => '_',
        }
    }
}

/// Whether the puzzle took the letter that was offered to it.
#[derive(PartialEq, Eq, Structural, Clone, Copy, Debug)]
pub enum CanCollect {
    Yes,
    No,
}

/// How long after the instructions the word is read out, in milliseconds.
pub const WORD_DELAY: u64 = 3000;

/// The height of the type of the instructions, in pixels.
pub const NORMAL_SIZE: u32 = 24;

/// The height of the type of the word, in pixels.
pub const BIG_SIZE: u32 = 42;

/// The sound clips that a tick starts.
#[derive(PartialEq, Eq, Structural, Clone, Copy, Debug)]
pub struct Sounds {
    /// The spoken instructions.
    pub instruction: bool,
    /// The spoken word.
    pub word: bool,
}

/// Where the two lines of the puzzle are drawn.
#[derive(PartialEq, Eq, Structural, Clone, Copy, Debug)]
pub struct PuzzleSprites {
    pub instruction: TextSprite,
    pub answer: TextSprite,
}

/// The slots of a word of which no letter has been found.
pub open spec fn pending(word: Seq<char>) -> Seq<Answered> {
    Seq::new(word.len(), |i: int| Answered::unfound(word[i]))
}

/// The cursor: the index of the first slot whose letter is still to be
/// found, or the number of slots if there is none.
pub open spec fn cursor(answer: Seq<Answered>) -> int
    decreases answer.len(),
{
    if answer.len() == 0 || answer[0] is No {
        0
    } else {
        1 + cursor(answer.drop_first())
    }
}

/// Whether every letter has been found.
pub open spec fn solved(answer: Seq<Answered>) -> bool {
    forall|i: int| 0 <= i < answer.len() ==> (#[trigger] answer[i]) is Yes
}

/// Whether the puzzle takes `letter`: it is the letter of the slot under
/// the cursor.
pub open spec fn accepts(answer: Seq<Answered>, letter: char) -> bool {
    cursor(answer) < answer.len() && answer[cursor(answer)] == Answered::No(letter)
}

/// The slots after `letter` has been offered: the slot under the cursor is
/// filled if the letter is its own, and nothing changes otherwise.
pub open spec fn collected(answer: Seq<Answered>, letter: char) -> Seq<Answered> {
    if accepts(answer, letter) {
        answer.update(cursor(answer), Answered::Yes(letter))
    } else {
        answer
    }
}

/// The slots after the letters of `letters` have been offered one by one.
pub open spec fn collected_all(answer: Seq<Answered>, letters: Seq<char>) -> Seq<Answered>
    decreases letters.len(),
{
    if letters.len() == 0 {
        answer
    } else {
        collected(collected_all(answer, letters.drop_last()), letters.last())
    }
}

/// The cursor is the one place with only found letters before it and, if it
/// is a slot at all, a letter to be found in it.
pub proof fn lemma_cursor(answer: Seq<Answered>)
    ensures
        0 <= cursor(answer) <= answer.len(),
        forall|i: int| 0 <= i < cursor(answer) ==> (#[trigger] answer[i]) is Yes,
        cursor(answer) < answer.len() ==> answer[cursor(answer)] is No,
        solved(answer) <==> cursor(answer) == answer.len(),
    decreases answer.len(),
{
    if answer.len() == 0 || answer[0] is No {
    } else {
        let rest = answer.drop_first();
        lemma_cursor(rest);
        assert forall|i: int| 0 <= i < cursor(answer) implies (#[trigger] answer[i]) is Yes by {
            if i > 0 {
                assert(rest[i - 1] is Yes);
            }
        }
        if solved(answer) {
            assert forall|i: int| 0 <= i < rest.len() implies (#[trigger] rest[i]) is Yes by {
                assert(answer[i + 1] is Yes);
            }
        }
        if cursor(answer) == answer.len() {
            assert(solved(rest));
            assert forall|i: int| 0 <= i < answer.len() implies (#[trigger] answer[i]) is Yes by {
                if i > 0 {
                    assert(rest[i - 1] is Yes);
                }
            }
        }
    }
}

/// An index with only found letters before it and a letter to be found in
/// it is the cursor.
pub proof fn lemma_cursor_is(answer: Seq<Answered>, index: int)
    requires
        0 <= index <= answer.len(),
        forall|i: int| 0 <= i < index ==> (#[trigger] answer[i]) is Yes,
        index < answer.len() ==> answer[index] is No,
    ensures
        cursor(answer) == index,
{
    lemma_cursor(answer);
    let c = cursor(answer);
    if c < index {
        assert(answer[c] is Yes);
    } else if index < c {
        assert(answer[index] is Yes);
    }
}

#[derive(Debug)]
pub struct Puzzle {
    tick: u64,
    pub answer: Vec<Answered>,
    instruction_played_timestamp: Option<u64>,
    word_played_timestamp: Option<u64>,
}

/// What a puzzle is: its slots, and the clock by which its two sound clips
/// are started.
pub struct PuzzleView {
    pub answer: Seq<Answered>,
    /// Milliseconds since the level began; the clock stops with the last clip.
    pub tick: u64,
    /// When the instructions were started, if they were.
    pub instruction_played: Option<u64>,
    /// When the word was started, if it was.
    pub word_played: Option<u64>,
}

impl PuzzleView {
    /// The clock is sound: nothing has been played before the first tick,
    /// the instructions are started in the first tick, and the word is
    /// started as soon as `WORD_DELAY` has passed since.
    pub open spec fn wf(self) -> bool {
        match self.instruction_played {
            None => self.tick == 0 && self.word_played is None,
            Some(start) => {
                &&& start <= self.tick
                &&& start <= u32::MAX
                &&& self.word_played is None ==> self.tick - start < WORD_DELAY
            },
        }
    }

    /// The clock after `dt` more milliseconds.
    pub open spec fn tick_after(self, dt: u32) -> u64 {
        if self.word_played is Some {
            self.tick
        } else {
            (self.tick + dt) as u64
        }
    }

    /// Whether the word is started in a tick of `dt` milliseconds.
    pub open spec fn word_due(self, dt: u32) -> bool {
        &&& self.word_played is None
        &&& self.instruction_played matches Some(start)
        &&& self.tick_after(dt) - start >= WORD_DELAY
    }

    /// The clips started in a tick of `dt` milliseconds.
    pub open spec fn sounds(self, dt: u32) -> Sounds {
        Sounds { instruction: self.instruction_played is None, word: self.word_due(dt) }
    }

    /// The puzzle after a tick of `dt` milliseconds.
    pub open spec fn ticked(self, dt: u32) -> PuzzleView {
        PuzzleView {
            answer: self.answer,
            tick: self.tick_after(dt),
            instruction_played: if self.instruction_played is None {
                Some(self.tick_after(dt))
            } else {
                self.instruction_played
            },
            word_played: if self.word_due(dt) {
                Some(self.tick_after(dt))
            } else {
                self.word_played
            },
        }
    }

    /// The puzzle after `letter` has been offered to it.
    pub open spec fn offered(self, letter: char) -> PuzzleView {
        PuzzleView {
            answer: collected(self.answer, letter),
            tick: self.tick,
            instruction_played: self.instruction_played,
            word_played: self.word_played,
        }
    }

    /// The line of text that shows the slots.
    pub open spec fn text(self) -> Seq<char> {
        text_of(self.answer)
    }
}

/// Where the two lines of the puzzle are drawn when the instructions are
/// `instruction_height` pixels high and the word `answer_height`: centred
/// in the window, the word two thirds of its height above the lower edge and
/// the instructions above it.
pub open spec fn puzzle_sprites(instruction_height: u32, answer_height: u32) -> PuzzleSprites {
    PuzzleSprites {
        instruction: TextSprite {
            center: Vector {
                x: (WINDOW_WIDTH / 2) as i64,
                y: (WINDOW_HEIGHT - (instruction_height + answer_height)) as i64,
            },
            size: NORMAL_SIZE,
            z: PUZZLE_Z,
        },
        answer: TextSprite {
            center: Vector {
                x: (WINDOW_WIDTH / 2) as i64,
                y: (WINDOW_HEIGHT - (answer_height * 2 / 3)) as i64,
            },
            size: BIG_SIZE,
            z: PUZZLE_Z,
        },
    }
}

/// The slots of the word `word`, with every letter still to be found.
pub fn to_answer(word: &str) -> (answer: Vec<Answered>)
    ensures
        answer@ == pending(word@),
{
    let count = word.unicode_len();
    let mut answer: Vec<Answered> = Vec::new();
    let mut i: usize = 0;
    while i < count
        invariant
            0 <= i <= count,
            count == word@.len(),
            answer@.len() == i,
            forall|j: int| 0 <= j < i ==> #[trigger] answer@[j] == Answered::No(word@[j]),
        decreases count - i,
    {
        answer.push(Answered::No(word.get_char(i)));
        i = i + 1;
    }
    assert(answer@ =~= pending(word@));
    answer
}

/// The slot that takes `letter`, if any does: the first slot still to be
/// found, if its letter is `letter`.
pub fn find_slot(answer: &Vec<Answered>, letter: char) -> (slot: Option<usize>)
    ensures
        match slot {
            Some(index) => accepts(answer@, letter) && index == cursor(answer@),
            None => !accepts(answer@, letter),
        },
{
    let mut i: usize = 0;
    while i < answer.len()
        invariant
            0 <= i <= answer@.len(),
            forall|j: int| 0 <= j < i ==> (#[trigger] answer@[j]) is Yes,
        decreases answer.len() - i,
    {
        if let Answered::No(answer_letter) = answer[i] {
            proof {
                lemma_cursor_is(answer@, i as int);
            }
            if letter == answer_letter {
                return Some(i);
            } else {
                return None;
            }
        }
        i = i + 1;
    }
    proof {
        lemma_cursor_is(answer@, answer@.len() as int);
    }
    None
}

/// The line of text that shows the slots `answer`.
pub open spec fn text_of(answer: Seq<Answered>) -> Seq<char> {
    Seq::new(answer.len(), |i: int| answer[i].rendered())
}

/// The line of text that shows the slots: the letters found so far, and a
/// blank for each of the others.
pub fn render(answer: &Vec<Answered>) -> (text: Vec<char>)
    ensures
        text@ == text_of(answer@),
{
    let mut text: Vec<char> = Vec::new();
    let mut i: usize = 0;
    while i < answer.len()
        invariant
            0 <= i <= answer@.len(),
            text@.len() == i,
            forall|j: int| 0 <= j < i ==> #[trigger] text@[j] == answer@[j].rendered(),
        decreases answer.len() - i,
    {
        text.push(answer[i].to_rendered_char());
        i = i + 1;
    }
    assert(text@ =~= text_of(answer@));
    text
}

/// Where the two lines of the puzzle are drawn, given how high the renderer
/// makes each.
pub fn lay_out(instruction_height: u32, answer_height: u32) -> (sprites: PuzzleSprites)
    ensures
        sprites == puzzle_sprites(instruction_height, answer_height),
{
    let center_x: i64 = (WINDOW_WIDTH / 2) as i64;
    let heights: i64 = instruction_height as i64 + answer_height as i64;
    let raised: i64 = (answer_height as i64 * 2) / 3;
    PuzzleSprites {
        instruction: TextSprite {
            center: Vector::new(center_x, WINDOW_HEIGHT as i64 - heights),
            size: NORMAL_SIZE,
            z: PUZZLE_Z,
        },
        answer: TextSprite {
            center: Vector::new(center_x, WINDOW_HEIGHT as i64 - raised),
            size: BIG_SIZE,
            z: PUZZLE_Z,
        },
    }
}

impl View for Puzzle {
    type V = PuzzleView;

    closed spec fn view(&self) -> PuzzleView {
        PuzzleView {
            answer: self.answer@,
            tick: self.tick,
            instruction_played: self.instruction_played_timestamp,
            word_played: self.word_played_timestamp,
        }
    }
}

impl Puzzle {
    /// Whether the clock of the puzzle is sound. Every puzzle made by `new`
    /// is, and stays so.
    pub open spec fn wf(&self) -> bool {
        self@.wf()
    }

    /// The puzzle of the word `word`, with every letter still to be found.
    pub fn new(word: String) -> (puzzle: Self)
        ensures
            puzzle@ == (PuzzleView {
                answer: pending(word@),
                tick: 0,
                instruction_played: None,
                word_played: None,
            }),
            puzzle.wf(),
    {
        Puzzle {
            tick: 0,
            answer: to_answer(word.as_str()),
            instruction_played_timestamp: None,
            word_played_timestamp: None,
        }
    }

    /// Lets `dt` milliseconds pass and says which sound clips to start now:
    /// the instructions in the first tick, the word once `WORD_DELAY` has
    /// passed since, each of them once.
    pub fn update(&mut self, dt: u32) -> (sounds: Sounds)
        requires
            old(self).wf(),
        ensures
            final(self)@ == old(self)@.ticked(dt),
            final(self).wf(),
            sounds == old(self)@.sounds(dt),
    {
        if self.word_played_timestamp.is_none() {
            self.tick = self.tick + dt as u64;
        }
        let mut sounds = Sounds { instruction: false, word: false };
        match self.instruction_played_timestamp {
            None => {
                self.instruction_played_timestamp = Some(self.tick);
                sounds.instruction = true;
            },
            Some(start) => {
                if self.word_played_timestamp.is_none() && self.tick - start >= WORD_DELAY {
                    self.word_played_timestamp = Some(self.tick);
                    sounds.word = true;
                }
            },
        }
        sounds
    }

    /// The line of text that shows the slots.
    pub fn answer_to_render(&self) -> (text: Vec<char>)
        ensures
            text@ == self@.text(),
    {
        render(&self.answer)
    }

    /// Where the two lines of the puzzle are drawn, given how high the
    /// renderer makes each.
    pub fn draw(&self, instruction_height: u32, answer_height: u32) -> (sprites: PuzzleSprites)
        ensures
            sprites == puzzle_sprites(instruction_height, answer_height),
    {
        lay_out(instruction_height, answer_height)
    }

    /// Offers `letter` to the puzzle. The puzzle takes it if it is the
    /// letter of the first slot still to be found, and fills that slot;
    /// otherwise, and whenever the puzzle is solved, it refuses and nothing
    /// changes.
    pub fn collect(&mut self, letter: char) -> (taken: CanCollect)
        ensures
            final(self)@ == old(self)@.offered(letter),
            taken == if accepts(old(self)@.answer, letter) {
                CanCollect::Yes
            } else {
                CanCollect::No
            },
            solved(old(self)@.answer) ==> taken == CanCollect::No && final(self)@ == old(self)@,
    {
        proof {
            lemma_cursor(self.answer@);
        }
        let index = self.find(letter);
        match index {
            None => CanCollect::No,
            Some(index) => {
                self.answer.set(index, Answered::Yes(letter));
                CanCollect::Yes
            },
        }
    }

    /// Whether every letter has been found.
    pub fn is_solved(&self) -> (is_solved: bool)
        ensures
            is_solved == solved(self@.answer),
    {
        let mut i: usize = 0;
        while i < self.answer.len()
            invariant
                0 <= i <= self.answer@.len(),
                forall|j: int| 0 <= j < i ==> (#[trigger] self.answer@[j]) is Yes,
            decreases self.answer.len() - i,
        {
            if let Answered::No(_) = self.answer[i] {
                return false;
            }
            i = i + 1;
        }
        true
    }

    /// The slot that takes `letter`, if the puzzle takes it.
    pub fn find(&self, letter: char) -> (slot: Option<usize>)
        ensures
            match slot {
                Some(index) => accepts(self@.answer, letter) && index == cursor(self@.answer),
                None => !accepts(self@.answer, letter),
            },
    {
        find_slot(&self.answer, letter)
    }
}

/// A solved puzzle refuses every letter and stays as it is.
pub proof fn solved_puzzle_refuses(answer: Seq<Answered>, letter: char)
    requires
        solved(answer),
    ensures
        !accepts(answer, letter),
        collected(answer, letter) == answer,
{
    lemma_cursor(answer);
}

/// Offering a letter never takes a found letter back, and never changes
/// the number of slots.
pub proof fn found_letter_stays_found(answer: Seq<Answered>, letter: char, i: int)
    requires
        0 <= i < answer.len(),
        answer[i] is Yes,
    ensures
        collected(answer, letter).len() == answer.len(),
        collected(answer, letter)[i] == answer[i],
{
    lemma_cursor(answer);
}

/// However many letters are offered, a found letter stays found.
pub proof fn found_letter_stays_found_for_good(answer: Seq<Answered>, letters: Seq<char>, i: int)
    requires
        0 <= i < answer.len(),
        answer[i] is Yes,
    ensures
        collected_all(answer, letters).len() == answer.len(),
        collected_all(answer, letters)[i] == answer[i],
    decreases letters.len(),
{
    if letters.len() > 0 {
        found_letter_stays_found_for_good(answer, letters.drop_last(), i);
        found_letter_stays_found(collected_all(answer, letters.drop_last()), letters.last(), i);
    }
}

/// A solved puzzle stays solved, and unchanged, whatever is offered to it.
pub proof fn solved_puzzle_stays_solved(answer: Seq<Answered>, letters: Seq<char>)
    requires
        solved(answer),
    ensures
        collected_all(answer, letters) == answer,
    decreases letters.len(),
{
    if letters.len() > 0 {
        solved_puzzle_stays_solved(answer, letters.drop_last());
        solved_puzzle_refuses(answer, letters.last());
    }
}

/// Whether `places` says where the letters of `word` stand in `letters`:
/// one place for each letter of the word, the places in rising order.
pub open spec fn spells(word: Seq<char>, letters: Seq<char>, places: Seq<int>) -> bool {
    &&& places.len() == word.len()
    &&& forall|k: int|
        0 <= k < places.len() ==> 0 <= #[trigger] places[k] < letters.len() && letters[places[k]]
            == word[k]
    &&& forall|a: int, b: int|
        0 <= a < b < places.len() ==> #[trigger] places[a] < #[trigger] places[b]
}

/// Whether the letters of `word` occur in `letters` in their order, with
/// any letters before, between and after them.
pub open spec fn spelled_in(word: Seq<char>, letters: Seq<char>) -> bool {
    exists|places: Seq<int>| spells(word, letters, places)
}

/// How many letters of `word` have been found once `letters` have been
/// offered one by one to the puzzle of the word: each offered letter that is
/// the next letter of the word counts.
pub open spec fn matched(word: Seq<char>, letters: Seq<char>) -> nat
    decreases letters.len(),
{
    if letters.len() == 0 {
        0
    } else {
        let before = matched(word, letters.drop_last());
        if before < word.len() && letters.last() == word[before as int] {
            before + 1
        } else {
            before
        }
    }
}

/// The `i`-th slot of the word `word` when its first `found` letters have
/// been found.
pub open spec fn slot(word: Seq<char>, found: nat, i: int) -> Answered {
    if i < found {
        Answered::Yes(word[i])
    } else {
        Answered::No(word[i])
    }
}

/// The slots of the word `word` when its first `found` letters have been found.
pub open spec fn found_first(word: Seq<char>, found: nat) -> Seq<Answered> {
    Seq::new(word.len(), |i: int| slot(word, found, i))
}

/// What offering a letter does to a puzzle of which a first part is found:
/// one more letter is found if the letter offered is the next one, and
/// nothing changes otherwise.
pub proof fn lemma_offer(word: Seq<char>, found: nat, letter: char)
    requires
        found <= word.len(),
    ensures
        cursor(found_first(word, found)) == found,
        collected(found_first(word, found), letter) == found_first(
            word,
            if found < word.len() && letter == word[found as int] {
                found + 1
            } else {
                found
            },
        ),
{
    let slots = found_first(word, found);
    lemma_cursor_is(slots, found as int);
    if found < word.len() && letter == word[found as int] {
        assert(slots.update(found as int, Answered::Yes(letter)) =~= found_first(word, found + 1));
    }
}

/// The puzzle of a word always has a first part of the word found, and the
/// rest still to be found.
pub proof fn lemma_collected_all(word: Seq<char>, letters: Seq<char>)
    ensures
        matched(word, letters) <= word.len(),
        collected_all(pending(word), letters) == found_first(word, matched(word, letters)),
        solved(collected_all(pending(word), letters)) <==> matched(word, letters) == word.len(),
    decreases letters.len(),
{
    let found = matched(word, letters);
    if letters.len() == 0 {
        assert(pending(word) =~= found_first(word, 0));
    } else {
        lemma_collected_all(word, letters.drop_last());
        lemma_offer(word, matched(word, letters.drop_last()), letters.last());
    }
    lemma_cursor_is(found_first(word, found), found as int);
    lemma_cursor(found_first(word, found));
}

/// The letters found after `letters` have been offered occur in `letters`
/// in their order.
proof fn lemma_matched_is_spelled(word: Seq<char>, letters: Seq<char>)
    ensures
        matched(word, letters) <= word.len(),
        spelled_in(word.take(matched(word, letters) as int), letters),
    decreases letters.len(),
{
    let found = matched(word, letters);
    if letters.len() == 0 {
        assert(spells(word.take(0), letters, Seq::<int>::empty()));
    } else {
        let shorter = letters.drop_last();
        let before = matched(word, shorter);
        lemma_matched_is_spelled(word, shorter);
        let places = choose|places: Seq<int>| spells(word.take(before as int), shorter, places);
        if found == before {
            assert(spells(word.take(found as int), letters, places));
        } else {
            let longer = places.push(letters.len() - 1);
            assert(spells(word.take(found as int), letters, longer)) by {
                assert forall|k: int| 0 <= k < longer.len() implies 0 <= #[trigger] longer[k]
                    < letters.len() && letters[longer[k]] == word.take(found as int)[k] by {
                    if k < places.len() {
                        assert(longer[k] == places[k]);
                        assert(shorter[places[k]] == word.take(before as int)[k]);
                    }
                }
                assert forall|a: int, b: int| 0 <= a < b < longer.len() implies #[trigger] longer[a]
                    < #[trigger] longer[b] by {
                    assert(longer[a] == places[a]);
                    if b < places.len() {
                        assert(longer[b] == places[b]);
                    }
                }
            }
        }
    }
}

/// No more letters of the word occur in `letters` in their order than
/// have been found after `letters` have been offered.
proof fn lemma_spelled_is_matched(word: Seq<char>, letters: Seq<char>, places: Seq<int>, count: int)
    requires
        0 <= count <= word.len(),
        spells(word.take(count), letters, places),
    ensures
        count <= matched(word, letters),
    decreases letters.len(),
{
    if count > 0 {
        let last = places[count - 1];
        assert(0 <= last < letters.len());
        let shorter = letters.drop_last();
        let before = matched(word, shorter);
        if last < letters.len() - 1 {
            assert(spells(word.take(count), shorter, places)) by {
                assert forall|k: int| 0 <= k < places.len() implies 0 <= #[trigger] places[k]
                    < shorter.len() && shorter[places[k]] == word.take(count)[k] by {
                    if k < count - 1 {
                        assert(places[k] < places[count - 1]);
                    }
                }
            }
            lemma_spelled_is_matched(word, shorter, places, count);
        } else {
            let fewer = places.drop_last();
            assert(spells(word.take(count - 1), shorter, fewer)) by {
                assert forall|k: int| 0 <= k < fewer.len() implies 0 <= #[trigger] fewer[k]
                    < shorter.len() && shorter[fewer[k]] == word.take(count - 1)[k] by {
                    assert(fewer[k] == places[k]);
                    assert(places[k] < places[count - 1]);
                    assert(letters[places[k]] == word.take(count)[k]);
                }
                assert forall|a: int, b: int| 0 <= a < b < fewer.len() implies #[trigger] fewer[a]
                    < #[trigger] fewer[b] by {
                    assert(fewer[a] == places[a]);
                    assert(fewer[b] == places[b]);
                }
            }
            lemma_spelled_is_matched(word, shorter, fewer, count - 1);
            if count - 1 == before {
                assert(letters.last() == letters[places[count - 1]]);
                assert(letters[places[count - 1]] == word.take(count)[count - 1]);
            }
        }
    }
}

/// The puzzle of a word is solved by the letters offered to it, one by one
/// and each filling the first slot still to be found or none, exactly if
/// the letters of the word occur among them in their order.
pub proof fn solved_iff_spelled(word: Seq<char>, letters: Seq<char>)
    ensures
        solved(collected_all(pending(word), letters)) <==> spelled_in(word, letters),
{
    lemma_collected_all(word, letters);
    assert(word.take(word.len() as int) =~= word);
    if matched(word, letters) == word.len() {
        lemma_matched_is_spelled(word, letters);
    }
    if spelled_in(word, letters) {
        let places = choose|places: Seq<int>| spells(word, letters, places);
        lemma_spelled_is_matched(word, letters, places, word.len() as int);
    }
}

/// Each sound clip is started once: the instructions in the first tick,
/// and neither clip again once it has been started.
pub proof fn clips_are_started_once(puzzle: PuzzleView, dt: u32)
    ensures
        puzzle.sounds(dt).instruction <==> puzzle.instruction_played is None,
        puzzle.ticked(dt).instruction_played is Some,
        puzzle.instruction_played is Some ==> puzzle.ticked(dt).instruction_played
            == puzzle.instruction_played,
        puzzle.sounds(dt).word ==> puzzle.word_played is None && puzzle.ticked(dt).word_played
            is Some,
        puzzle.word_played is Some ==> puzzle.ticked(dt).word_played == puzzle.word_played,
{
}

/// The clock of a puzzle stays sound from tick to tick, and offering a
/// letter does not touch it.
pub proof fn clock_stays_sound(puzzle: PuzzleView, dt: u32, letter: char)
    requires
        puzzle.wf(),
    ensures
        puzzle.ticked(dt).wf(),
        puzzle.offered(letter).wf(),
        puzzle.ticked(dt).answer == puzzle.answer,
{
}

} // verus!
