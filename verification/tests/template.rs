use cry::template::{is_ascii_space, tokenize};
use cry::text::chars_of;

fn words(items: &[&str]) -> Vec<String> {
    items.iter().map(|item| item.to_string()).collect()
}

#[test]
fn a_single_word_is_one_token() {
    assert_eq!(tokenize("python3"), words(&["python3"]));
}

#[test]
fn words_are_cut_at_spaces() {
    assert_eq!(tokenize("make all"), words(&["make", "all"]));
}

#[test]
fn runs_of_mixed_whitespace_cut_once() {
    assert_eq!(tokenize("  gcc   -O2\t-o\nout\r\n "), words(&["gcc", "-O2", "-o", "out"]));
}

#[test]
fn the_empty_template_has_no_tokens() {
    assert_eq!(tokenize(""), Vec::<String>::new());
}

#[test]
fn a_blank_template_has_no_tokens() {
    assert_eq!(tokenize(" \t\r\n\u{000C}"), Vec::<String>::new());
}

#[test]
fn quotes_do_not_hold_words_together() {
    assert_eq!(tokenize("sh -c \"echo hi\""), words(&["sh", "-c", "\"echo", "hi\""]));
}

#[test]
fn whitespace_beyond_ascii_does_not_cut() {
    assert_eq!(tokenize("a\u{00A0}b c\u{2003}d"), words(&["a\u{00A0}b", "c\u{2003}d"]));
}

#[test]
fn the_vertical_tab_does_not_cut() {
    assert_eq!(tokenize("a\u{000B}b"), words(&["a\u{000B}b"]));
}

#[test]
fn characters_of_several_bytes_stay_whole() {
    assert_eq!(tokenize("echo h\u{00E9}llo \u{4E16}\u{754C}"), words(&["echo", "h\u{00E9}llo", "\u{4E16}\u{754C}"]));
}

#[test]
fn the_five_ascii_whitespace_characters_are_told() {
    for c in [' ', '\t', '\n', '\u{000C}', '\r'] {
        assert!(is_ascii_space(c));
    }
    for c in ['a', '0', '.', '\u{000B}', '\u{00A0}', '\u{2003}', '\0'] {
        assert!(!is_ascii_space(c));
    }
}

#[test]
fn chars_of_gives_each_character_in_order() {
    assert_eq!(chars_of("a\u{00E9}\u{4E16}!"), vec!['a', '\u{00E9}', '\u{4E16}', '!']);
    assert_eq!(chars_of(""), Vec::<char>::new());
}
