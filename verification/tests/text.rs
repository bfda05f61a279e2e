use card_lookup::text::{blank, chars_of, same_text, starts_with, trim_bounds};

#[test]
fn chars_of_lists_characters_not_bytes() {
    assert_eq!(chars_of("a\u{e9}\u{2022}"), vec!['a', '\u{e9}', '\u{2022}']);
    assert_eq!(chars_of(""), Vec::<char>::new());
}

#[test]
fn same_text_is_exact() {
    assert!(same_text("abc", "abc"));
    assert!(same_text("", ""));
    assert!(!same_text("abc", "abd"));
    assert!(!same_text("abc", "ABC"));
    assert!(!same_text("abc", "ab"));
}

#[test]
fn starts_with_is_exact_prefix() {
    assert!(starts_with("Sure Gamble", "Sure"));
    assert!(starts_with("Sure", "Sure"));
    assert!(starts_with("Sure", ""));
    assert!(starts_with("", ""));
    assert!(!starts_with("Sure", "Sure Gamble"));
    assert!(!starts_with("Sure Gamble", "sure"));
    assert!(!starts_with("", "S"));
    assert!(starts_with("\u{e9}t\u{e9}", "\u{e9}"));
}

#[test]
fn blank_is_space_tab_and_line_breaks() {
    for c in [' ', '\t', '\n', '\r'] {
        assert!(blank(c));
    }
    for c in ['a', '[', '\u{a0}', '0'] {
        assert!(!blank(c));
    }
}

#[test]
fn trim_bounds_skip_blanks_at_both_ends() {
    let chars = chars_of("[[  a b \t]]");
    assert_eq!(trim_bounds(&chars, 2, 9), (4, 7));
    let chars = chars_of("    ");
    assert_eq!(trim_bounds(&chars, 0, 4), (4, 4));
    assert_eq!(trim_bounds(&chars, 2, 2), (2, 2));
    let chars = chars_of("ab");
    assert_eq!(trim_bounds(&chars, 0, 2), (0, 2));
}
