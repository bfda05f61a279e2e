use card_lookup::scripting::regex::{Regex, RegexError};

#[test]
fn replace_all_replaces_every_match() {
    let re = Regex::new(r"\[(click|credit)\]").unwrap();
    assert_eq!(re.replace_all("lose [click], gain 2[credit]", "*"), "lose *, gain 2*");
}

#[test]
fn replace_all_leaves_text_without_a_match() {
    let re = Regex::new("x+").unwrap();
    assert_eq!(re.replace_all("abc", "y"), "abc");
    assert_eq!(re.replace_all("", "y"), "");
}

#[test]
fn replacement_may_refer_to_capture_groups() {
    let re = Regex::new(r"<strong>(?<inner>[^<]*)</strong>").unwrap();
    assert_eq!(re.replace_all("a <strong>b</strong> c <strong>d</strong>", "**$inner**"), "a **b** c **d**");
    let re = Regex::new(r"(\w+) (\w+)").unwrap();
    assert_eq!(re.replace_all("hedge fund", "$2 $1"), "fund hedge");
}

#[test]
fn pattern_that_does_not_compile_is_an_error() {
    let error = Regex::new("foo(bar").unwrap_err();
    assert!(!error.detail.is_empty());
    assert_eq!(error.message(), format!("Failed to compile regex: {}", error.detail));
    assert!(Regex::new(r"\w{1000}").is_err());
    assert!(Regex::new(r"(?-u:\w){1000}").is_ok());
}

#[test]
fn regex_error_message_has_its_prefix() {
    let error = RegexError { detail: "Syntax(...)".to_string() };
    assert_eq!(error.message(), "Failed to compile regex: Syntax(...)");
}

#[test]
fn empty_pattern_matches_between_characters() {
    let re = Regex::new("").unwrap();
    assert_eq!(re.replace_all("ab", "-"), "-a-b-");
}
