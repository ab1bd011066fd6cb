use hangman::{
    advance, check_progress, create_letters, display_progress, guess_from_line, GameProgress,
    GameState, ALLOWED_ATTEMPTS, QUIT_SYMBOL,
};

#[test]
fn build_track_has_one_unrevealed_slot_per_character() {
    let letters = create_letters(&String::from("cat"));
    assert_eq!(letters.len(), 3);
    let expected = ['c', 'a', 't'];
    for (slot, c) in letters.iter().zip(expected.iter()) {
        assert_eq!(slot.character, *c);
        assert!(!slot.revealed);
    }
}

#[test]
fn fresh_state_is_in_progress() {
    let state = GameState::new(&String::from("cat"));
    assert_eq!(state.turns_remaining, ALLOWED_ATTEMPTS);
    assert_eq!(state.turns_remaining, 5);
    assert_eq!(state.evaluate(), GameProgress::InProgress);
}

#[test]
fn repeated_correct_guess_costs_no_turn() {
    let mut state = GameState::new(&String::from("cat"));
    let matched_first = state.apply_guess('c');
    assert!(matched_first);
    assert_eq!(state.turns_remaining, 5);
    assert!(state.letters[0].revealed);
    let matched_again = state.apply_guess('c');
    assert!(matched_again);
    assert_eq!(state.turns_remaining, 5);
    assert!(state.letters[0].revealed);
    assert!(!state.letters[1].revealed);
    assert!(!state.letters[2].revealed);
}

#[test]
fn revealed_flags_never_revert() {
    let mut state = GameState::new(&String::from("banana"));
    let guesses = ['a', 'x', 'n', 'z', 'b', 'q', 'a'];
    let mut seen_revealed = vec![false; state.letters.len()];
    for g in guesses.iter() {
        state.apply_guess(*g);
        for (i, slot) in state.letters.iter().enumerate() {
            if seen_revealed[i] {
                assert!(slot.revealed);
            }
            if slot.revealed {
                seen_revealed[i] = true;
            }
        }
    }
}

#[test]
fn winning_guess_beats_exhausted_turns() {
    let mut state = GameState::new(&String::from("ab"));
    state.apply_guess('a');
    state.turns_remaining = 1;
    let matched = state.apply_guess('b');
    assert!(matched);
    assert_eq!(state.turns_remaining, 1);
    assert_eq!(state.evaluate(), GameProgress::Won);
    let zero_turn_win = GameState {
        turns_remaining: 0,
        letters: {
            let mut letters = create_letters(&String::from("ab"));
            for slot in letters.iter_mut() {
                slot.revealed = true;
            }
            letters
        },
    };
    assert_eq!(zero_turn_win.evaluate(), GameProgress::Won);
}

#[test]
fn five_misses_exhaust_the_turns() {
    let mut state = GameState::new(&String::from("cat"));
    for g in ['v', 'w', 'e', 'r', 'u'].iter() {
        assert_eq!(state.evaluate(), GameProgress::InProgress);
        let matched = state.apply_guess(*g);
        assert!(!matched);
    }
    assert_eq!(state.turns_remaining, 0);
    assert_eq!(state.evaluate(), GameProgress::Lost);
}

#[test]
fn full_match_scenario_wins_with_all_turns_left() {
    let mut state = GameState::new(&String::from("cat"));
    let mut outcome = GameProgress::InProgress;
    for g in ['c', 'a', 't'].iter() {
        let matched = state.apply_guess(*g);
        assert!(matched);
        assert_eq!(state.turns_remaining, 5);
        outcome = state.evaluate();
    }
    assert_eq!(outcome, GameProgress::Won);
    assert_eq!(display_progress(&state.letters), "Progress: c  a  t ");
}

#[test]
fn five_miss_scenario_loses_with_nothing_revealed() {
    let mut state = GameState::new(&String::from("cat"));
    for g in ['x', 'y', 'z', 'q', 'w'].iter() {
        state.apply_guess(*g);
    }
    assert_eq!(state.turns_remaining, 0);
    assert_eq!(state.evaluate(), GameProgress::Lost);
    assert_eq!(display_progress(&state.letters), "Progress: _  _  _ ");
}

#[test]
fn quit_symbol_ends_the_session_untouched() {
    let mut state = GameState::new(&String::from("cat"));
    let outcome = advance(&mut state, QUIT_SYMBOL);
    assert!(outcome.is_none());
    assert_eq!(state.turns_remaining, 5);
    for slot in state.letters.iter() {
        assert!(!slot.revealed);
    }
}

#[test]
fn advance_applies_an_ordinary_guess() {
    let mut state = GameState::new(&String::from("cat"));
    let outcome = advance(&mut state, 'c');
    assert_eq!(outcome, Some(GameProgress::InProgress));
    assert!(state.letters[0].revealed);
    let outcome = advance(&mut state, 'x');
    assert_eq!(outcome, Some(GameProgress::InProgress));
    assert_eq!(state.turns_remaining, 4);
}

#[test]
fn guess_is_the_first_character_of_the_line() {
    assert_eq!(guess_from_line(&String::from("hat\n")), 'h');
    assert_eq!(guess_from_line(&String::from("z")), 'z');
}

#[test]
fn empty_line_reads_as_the_quit_symbol() {
    assert_eq!(guess_from_line(&String::from("")), QUIT_SYMBOL);
    assert_eq!(guess_from_line(&String::from("")), '*');
}

#[test]
fn partial_reveal_shows_underscores_for_hidden_slots() {
    let mut state = GameState::new(&String::from("cat"));
    state.apply_guess('a');
    assert_eq!(display_progress(&state.letters), "Progress: _  a  _ ");
}

#[test]
fn empty_word_is_trivially_won() {
    let letters = create_letters(&String::from(""));
    assert_eq!(letters.len(), 0);
    assert_eq!(check_progress(5, &letters), GameProgress::Won);
}

#[test]
fn turn_count_never_goes_below_zero() {
    let mut state = GameState::new(&String::from("cat"));
    for _ in 0..7 {
        state.apply_guess('x');
    }
    assert_eq!(state.turns_remaining, 0);
}
