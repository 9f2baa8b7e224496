use dless::word::{whitespace_mask, word_back, word_forward};

fn forward(line: &str, col: usize) -> usize {
    word_forward(&whitespace_mask(line), col)
}

fn back(line: &str, col: usize) -> usize {
    word_back(&whitespace_mask(line), col)
}

#[test]
fn mask_marks_white_space() {
    assert_eq!(whitespace_mask("a b"), vec![false, true, false]);
    assert_eq!(whitespace_mask(""), Vec::<bool>::new());
    assert_eq!(whitespace_mask(" \t x"), vec![true, true, true, false]);
}

#[test]
fn mask_knows_white_space_beyond_ascii() {
    assert_eq!(whitespace_mask("a\u{a0}b\u{3000}c"), vec![false, true, false, true, false]);
    assert_eq!(whitespace_mask("\u{8d8a}"), vec![false]);
}

#[test]
fn mask_has_one_entry_per_character() {
    assert_eq!(whitespace_mask("h\u{e9} \u{8d8a}").len(), 4);
}

#[test]
fn forward_reaches_next_word() {
    assert_eq!(forward("hello world", 0), 6);
    assert_eq!(forward("hello world", 3), 6);
    assert_eq!(forward("hello world", 5), 6);
    assert_eq!(forward("aaa bbb ccc", 0), 4);
    assert_eq!(forward("aaa bbb ccc", 4), 8);
}

#[test]
fn forward_stops_at_line_end() {
    assert_eq!(forward("hello world", 6), 11);
    assert_eq!(forward("hello world", 11), 11);
    assert_eq!(forward("word", 0), 4);
    assert_eq!(forward("trailing   ", 2), 11);
    assert_eq!(forward("", 0), 0);
}

#[test]
fn forward_skips_runs_of_white_space() {
    assert_eq!(forward("a   \t b", 0), 6);
    assert_eq!(forward("   x", 0), 3);
    assert_eq!(forward("   x", 1), 3);
}

#[test]
fn forward_past_the_line_lands_on_its_end() {
    assert_eq!(forward("abc", 7), 3);
    assert_eq!(forward("abc", usize::MAX), 3);
}

#[test]
fn back_reaches_previous_word() {
    assert_eq!(back("hello world", 6), 0);
    assert_eq!(back("hello world", 11), 6);
    assert_eq!(back("hello world", 8), 6);
    assert_eq!(back("aaa bbb ccc", 11), 8);
    assert_eq!(back("aaa bbb ccc", 8), 4);
    assert_eq!(back("aaa bbb ccc", 4), 0);
}

#[test]
fn back_stops_at_line_head() {
    assert_eq!(back("hello", 0), 0);
    assert_eq!(back("hello", 3), 0);
    assert_eq!(back("   x", 2), 0);
    assert_eq!(back("   x", 3), 0);
    assert_eq!(back("", 0), 0);
}

#[test]
fn back_from_white_space_reaches_word_before() {
    assert_eq!(back("ab   cd", 4), 0);
    assert_eq!(back("  ab   cd", 6), 2);
}

#[test]
fn back_from_past_the_line() {
    assert_eq!(back("ab cd", 9), 3);
    assert_eq!(back("ab cd", usize::MAX), 3);
}

#[test]
fn punctuation_parts_no_words() {
    assert_eq!(forward("foo(bar) baz", 0), 9);
    assert_eq!(back("foo(bar) baz", 9), 0);
    assert_eq!(forward("a,b;c", 0), 5);
}

#[test]
fn words_on_a_given_mask() {
    let spaces = vec![false, false, true, false];
    assert_eq!(word_forward(&spaces, 0), 3);
    assert_eq!(word_forward(&spaces, 3), 4);
    assert_eq!(word_back(&spaces, 3), 0);
    assert_eq!(word_back(&spaces, 4), 3);
}
