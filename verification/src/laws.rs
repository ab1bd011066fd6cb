use vstd::prelude::*;

use crate::ALLOWED_ATTEMPTS;
use crate::game::all_revealed;
use crate::game::guess_applied;
use crate::game::spec_matches;
use crate::game::spec_progress;
use crate::game::spec_turns_after;
use crate::game::GameProgress;
use crate::letters::fresh_track;
use crate::letters::Letter;

verus! {

broadcast use vstd::seq::group_seq_axioms;

/// A freshly built state is still in progress: with a non-empty word,
/// nothing revealed yet and the full allowance of turns, the outcome is
/// neither a win nor a loss.
pub proof fn lemma_fresh_state_in_progress(word: Seq<char>, letters: Seq<Letter>)
    requires
        word.len() > 0,
        fresh_track(word, letters),
    ensures
        spec_progress(ALLOWED_ATTEMPTS, letters) == GameProgress::InProgress,
{
    assert(letters[0].character == word[0] && !letters[0].revealed);
}

/// A correct guess is idempotent: it costs no turn, and repeating it on
/// the resulting track costs no turn either, changes nothing further,
/// and leaves every matching slot revealed.
pub proof fn lemma_correct_guess_idempotent(
    letters0: Seq<Letter>,
    guess: char,
    letters1: Seq<Letter>,
    letters2: Seq<Letter>,
    turns: u8,
)
    requires
        spec_matches(letters0, guess),
        guess_applied(letters0, guess, letters1),
        guess_applied(letters1, guess, letters2),
    ensures
        spec_turns_after(turns, spec_matches(letters0, guess)) == turns,
        spec_matches(letters1, guess),
        spec_turns_after(turns, spec_matches(letters1, guess)) == turns,
        letters2 =~= letters1,
        forall|i: int|
            0 <= i < letters1.len() && letters0[i].character == guess ==> letters1[i].revealed,
{
    let w = choose|i: int| 0 <= i < letters0.len() && letters0[i].character == guess;
    assert(letters1[w].character == guess);
    assert forall|i: int| 0 <= i < letters1.len() implies letters2[i] == letters1[i] by {
        assert(letters2[i].character == letters1[i].character);
        assert(letters2[i].revealed == letters1[i].revealed);
    }
}

/// The states a session runs through: `boards[j]` and `turns[j]` stand
/// before the `j`-th guess, and each guess transforms them as one call
/// of `apply_guess` does.
pub open spec fn play_trace(turns: Seq<u8>, boards: Seq<Seq<Letter>>, guesses: Seq<char>) -> bool {
    &&& turns.len() == guesses.len() + 1
    &&& boards.len() == guesses.len() + 1
    &&& forall|j: int|
        0 <= j < guesses.len() ==> guess_applied(boards[j], guesses[j], boards[j + 1]) && turns[j
            + 1] == spec_turns_after(turns[j], spec_matches(boards[j], guesses[j]))
}

/// Revealing is monotonic: across any sequence of guesses, a slot once
/// revealed stays revealed, and no slot ever changes its character.
pub proof fn lemma_revealed_monotonic(
    turns: Seq<u8>,
    boards: Seq<Seq<Letter>>,
    guesses: Seq<char>,
    j: int,
    k: int,
    i: int,
)
    requires
        play_trace(turns, boards, guesses),
        0 <= j <= k < boards.len(),
        0 <= i < boards[j].len(),
    ensures
        boards[k].len() == boards[j].len(),
        boards[k][i].character == boards[j][i].character,
        boards[j][i].revealed ==> boards[k][i].revealed,
    decreases k - j,
{
    if j < k {
        assert(guess_applied(boards[j], guesses[j], boards[j + 1]));
        lemma_revealed_monotonic(turns, boards, guesses, j + 1, k, i);
    }
}

/// A winning guess takes precedence: when a guess reveals the last
/// hidden slot, the outcome is a win whatever the turn count, even one
/// that a miss would have exhausted.
pub proof fn lemma_win_precedence(
    letters0: Seq<Letter>,
    guess: char,
    letters1: Seq<Letter>,
    turns: u8,
)
    requires
        guess_applied(letters0, guess, letters1),
        all_revealed(letters1),
    ensures
        spec_progress(spec_turns_after(turns, spec_matches(letters0, guess)), letters1)
            == GameProgress::Won,
{
}

/// As long as every guess misses, each one costs exactly one turn and
/// the letter track does not change at all.
proof fn lemma_missed_prefix(
    turns: Seq<u8>,
    boards: Seq<Seq<Letter>>,
    guesses: Seq<char>,
    j: int,
)
    requires
        play_trace(turns, boards, guesses),
        turns[0] == guesses.len(),
        forall|m: int| 0 <= m < guesses.len() ==> !spec_matches(boards[m], guesses[m]),
        0 <= j <= guesses.len(),
    ensures
        turns[j] == guesses.len() - j,
        boards[j] =~= boards[0],
    decreases j,
{
    if j > 0 {
        lemma_missed_prefix(turns, boards, guesses, j - 1);
        assert(guess_applied(boards[j - 1], guesses[j - 1], boards[j]));
        assert forall|i: int| 0 <= i < boards[0].len() implies boards[j][i] == boards[0][i] by {
            assert(boards[j - 1][i] == boards[0][i]);
            assert(boards[j][i].character == boards[j - 1][i].character);
            assert(boards[j][i].revealed == boards[j - 1][i].revealed);
        }
    }
}

/// Exhaustion: starting with as many turns as there are guesses, a run
/// of guesses that each match no slot ends with zero turns, an unchanged
/// letter track, and — the word not being fully revealed — a loss.
pub proof fn lemma_exhaustion(turns: Seq<u8>, boards: Seq<Seq<Letter>>, guesses: Seq<char>)
    requires
        play_trace(turns, boards, guesses),
        turns[0] == guesses.len(),
        forall|m: int| 0 <= m < guesses.len() ==> !spec_matches(boards[m], guesses[m]),
        !all_revealed(boards[0]),
    ensures
        turns[guesses.len() as int] == 0,
        boards[guesses.len() as int] =~= boards[0],
        spec_progress(turns[guesses.len() as int], boards[guesses.len() as int])
            == GameProgress::Lost,
{
    lemma_missed_prefix(turns, boards, guesses, guesses.len() as int);
}

} // verus!
