use vstd::prelude::*;

use crate::ALLOWED_ATTEMPTS;
use crate::QUIT_SYMBOL;
use crate::letters::Letter;
use crate::letters::create_letters;
use crate::letters::fresh_track;

verus! {

broadcast use vstd::seq::group_seq_axioms;

/// The outcome of a game, recomputed from the state after every guess.
#[derive(Clone, Copy, Debug, PartialEq, Eq, Structural)]
pub enum GameProgress {
    InProgress,
    Won,
    Lost,
}

/// A guess matches a track when at least one slot carries the guessed
/// character, whether or not that slot was already revealed.
pub open spec fn spec_matches(letters: Seq<Letter>, guess: char) -> bool {
    exists|i: int| 0 <= i < letters.len() && letters[i].character == guess
}

/// How one guess transforms the letter track: every slot keeps its
/// character, and a slot is revealed afterwards exactly when it was
/// revealed before or carries the guessed character.
pub open spec fn guess_applied(before: Seq<Letter>, guess: char, after: Seq<Letter>) -> bool {
    &&& after.len() == before.len()
    &&& forall|i: int|
        0 <= i < before.len() ==> after[i].character == before[i].character && after[i].revealed
            == (before[i].revealed || before[i].character == guess)
}

/// The turn count after a guess: a matching guess is free, a miss costs
/// one turn, and the count never drops below zero.
pub open spec fn spec_turns_after(turns: u8, matched: bool) -> u8 {
    if matched {
        turns
    } else if turns > 0 {
        (turns - 1) as u8
    } else {
        0
    }
}

/// The whole word has been revealed.
pub open spec fn all_revealed(letters: Seq<Letter>) -> bool {
    forall|i: int| 0 <= i < letters.len() ==> letters[i].revealed
}

/// The outcome determined by a state: a fully revealed word is a win,
/// whatever the turn count; otherwise the game goes on while turns are
/// left, and is lost once they are gone.
pub open spec fn spec_progress(turns: u8, letters: Seq<Letter>) -> GameProgress {
    if all_revealed(letters) {
        GameProgress::Won
    } else if turns > 0 {
        GameProgress::InProgress
    } else {
        GameProgress::Lost
    }
}

/// Determine the outcome that the given turn count and letter track
/// stand for.
pub fn check_progress(turns_left: u8, letters: &Vec<Letter>) -> (progress: GameProgress)
    ensures
        progress == spec_progress(turns_left, letters@),
{
    let mut all_revealed = true;
    let mut k: usize = 0;
    while k < letters.len()
        invariant
            k <= letters@.len(),
            all_revealed == (forall|i: int| 0 <= i < k ==> letters@[i].revealed),
        decreases letters@.len() - k,
    {
        if !letters[k].revealed {
            all_revealed = false;
        }
        k = k + 1;
    }
    if all_revealed {
        GameProgress::Won
    } else if turns_left > 0 {
        GameProgress::InProgress
    } else {
        GameProgress::Lost
    }
}

/// One game session: the turns the player still has and the letter track
/// of the secret word.
pub struct GameState {
    pub turns_remaining: u8,
    pub letters: Vec<Letter>,
}

impl GameState {
    /// Start a session on the given secret word, with the full allowance
    /// of turns and nothing revealed.
    pub fn new(word: &String) -> (state: GameState)
        ensures
            state.turns_remaining == ALLOWED_ATTEMPTS,
            fresh_track(word@, state.letters@),
    {
        GameState { turns_remaining: ALLOWED_ATTEMPTS, letters: create_letters(word) }
    }

    /// Apply one guessed character: reveal every slot that carries it,
    /// and charge a turn only when no slot does.
    pub fn apply_guess(&mut self, guess: char) -> (matched: bool)
        ensures
            matched == spec_matches(old(self).letters@, guess),
            guess_applied(old(self).letters@, guess, final(self).letters@),
            final(self).turns_remaining == spec_turns_after(old(self).turns_remaining, matched),
    {
        let mut matched = false;
        let mut k: usize = 0;
        while k < self.letters.len()
            invariant
                k <= self.letters@.len(),
                self.letters@.len() == old(self).letters@.len(),
                self.turns_remaining == old(self).turns_remaining,
                matched == (exists|i: int|
                    0 <= i < k && old(self).letters@[i].character == guess),
                forall|i: int|
                    k <= i < self.letters@.len() ==> self.letters@[i] == old(self).letters@[i],
                forall|i: int|
                    0 <= i < k ==> self.letters@[i].character == old(self).letters@[i].character
                        && self.letters@[i].revealed == (old(self).letters@[i].revealed || old(
                        self,
                    ).letters@[i].character == guess),
            decreases self.letters@.len() - k,
        {
            if self.letters[k].character == guess {
                let c = self.letters[k].character;
                self.letters.set(k, Letter { character: c, revealed: true });
                matched = true;
            }
            k = k + 1;
        }
        if !matched && self.turns_remaining > 0 {
            self.turns_remaining = self.turns_remaining - 1;
        }
        matched
    }

    /// Determine the outcome of the current state.
    pub fn evaluate(&self) -> (progress: GameProgress)
        ensures
            progress == spec_progress(self.turns_remaining, self.letters@),
    {
        check_progress(self.turns_remaining, &self.letters)
    }
}

/// Drive the session one round forward. The quit symbol ends the session
/// at once, leaving the state untouched and evaluating no outcome; any
/// other character is applied as a guess, and the outcome of the new
/// state is returned.
pub fn advance(state: &mut GameState, guess: char) -> (progress: Option<GameProgress>)
    ensures
        guess == QUIT_SYMBOL ==> progress is None && *final(state) == *old(state),
        guess != QUIT_SYMBOL ==> {
            &&& guess_applied(old(state).letters@, guess, final(state).letters@)
            &&& final(state).turns_remaining == spec_turns_after(
                old(state).turns_remaining,
                spec_matches(old(state).letters@, guess),
            )
            &&& progress == Some(spec_progress(final(state).turns_remaining, final(state).letters@))
        },
{
    if guess == QUIT_SYMBOL {
        None
    } else {
        state.apply_guess(guess);
        Some(state.evaluate())
    }
}

/// The guess a line of input stands for: its first character, or the
/// quit symbol when the line is empty.
pub fn guess_from_line(line: &String) -> (guess: char)
    ensures
        guess == (if line@.len() == 0 {
            QUIT_SYMBOL
        } else {
            line@[0]
        }),
{
    if line.as_str().unicode_len() == 0 {
        QUIT_SYMBOL
    } else {
        line.as_str().get_char(0)
    }
}

} // verus!
