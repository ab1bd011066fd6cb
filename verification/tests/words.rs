use hangman::{parse_word_list, select_word, SourceError};

#[test]
fn word_list_splits_on_commas() {
    let words = parse_word_list(&String::from("cat,dog,fish"));
    assert_eq!(words, vec!["cat", "dog", "fish"]);
}

#[test]
fn empty_contents_parse_to_one_empty_entry() {
    let words = parse_word_list(&String::from(""));
    assert_eq!(words, vec![""]);
}

#[test]
fn adjacent_commas_keep_their_empty_entries() {
    let words = parse_word_list(&String::from("a,,b,"));
    assert_eq!(words, vec!["a", "", "b", ""]);
}

#[test]
fn nothing_is_trimmed_around_entries() {
    let words = parse_word_list(&String::from(" cat , dog"));
    assert_eq!(words, vec![" cat ", " dog"]);
}

#[test]
fn empty_list_is_a_source_failure() {
    let words: Vec<String> = Vec::new();
    assert_eq!(select_word(&words), Err(SourceError::SourceUnavailable));
}

#[test]
fn single_candidate_is_always_selected() {
    let words = vec![String::from("lonely")];
    assert_eq!(select_word(&words).unwrap(), "lonely");
}

#[test]
fn selection_comes_from_the_list() {
    let words = vec![
        String::from("cat"),
        String::from("dog"),
        String::from("fish"),
    ];
    for _ in 0..20 {
        let picked = select_word(&words).unwrap();
        assert!(words.contains(&picked));
    }
}
