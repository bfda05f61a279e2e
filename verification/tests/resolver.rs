use card_lookup::record::CardRecord;
use card_lookup::resolver::{
    classify, contains_text, distinct_titles, prefix_pattern, Resolution, CANDIDATE_LIMIT,
};
use card_lookup::store::CardStore;

fn card(game: &str, title: &str, payload: &str) -> CardRecord {
    CardRecord { game: game.to_string(), title: title.to_string(), payload: payload.to_string() }
}

fn store_of(rows: &[(&str, &str)]) -> CardStore {
    let mut store = CardStore::new();
    for (title, payload) in rows {
        store.insert(card("netrunner", title, payload));
    }
    store
}

#[test]
fn pattern_is_query_then_any_run() {
    assert_eq!(prefix_pattern("Sure"), "Sure%");
    assert_eq!(prefix_pattern(""), "%");
    assert_eq!(prefix_pattern("Sure Gamble (Alt Art)"), "Sure Gamble (Alt Art)%");
}

#[test]
fn pattern_escapes_the_pattern_characters_of_the_query() {
    assert_eq!(prefix_pattern("100%"), "100\\%%");
    assert_eq!(prefix_pattern("a_b"), "a\\_b%");
    assert_eq!(prefix_pattern("back\\slash"), "back\\\\slash%");
    assert_eq!(prefix_pattern("%_\\"), "\\%\\_\\\\%");
}

#[test]
fn candidate_limit_is_ten() {
    assert_eq!(CANDIDATE_LIMIT, 10);
}

#[test]
fn prefix_query_keeps_insertion_order() {
    let store = store_of(&[("Sure Gamble", "a"), ("Hedge Fund", "b"), ("Surge", "c"), ("Sure Thing", "d")]);
    let found = store.find_by_prefix("Sur", 10);
    let titles: Vec<&str> = found.iter().map(|c| c.title.as_str()).collect();
    assert_eq!(titles, vec!["Sure Gamble", "Surge", "Sure Thing"]);
}

#[test]
fn prefix_query_compares_characters_exactly() {
    // The model store is case-sensitive: a query matches the titles that
    // begin with it in the same case, and no others.
    let store = store_of(&[("Sure Gamble", "a"), ("sure gamble", "b"), ("SURE", "c")]);
    assert_eq!(store.find_by_prefix("Sure", 10), vec![card("netrunner", "Sure Gamble", "a")]);
    assert_eq!(store.find_by_prefix("sure", 10), vec![card("netrunner", "sure gamble", "b")]);
    assert_eq!(store.find_by_prefix("sURE", 10), Vec::<CardRecord>::new());
}

#[test]
fn prefix_query_takes_the_characters_of_the_query_literally() {
    let store = store_of(&[("100% Pure", "a"), ("1000 Cuts", "b"), ("a_b", "c"), ("axb", "d")]);
    assert_eq!(store.find_by_prefix("100%", 10), vec![card("netrunner", "100% Pure", "a")]);
    assert_eq!(store.find_by_prefix("a_", 10), vec![card("netrunner", "a_b", "c")]);
}

#[test]
fn prefix_query_stops_at_the_limit() {
    let mut store = CardStore::new();
    for i in 0..12 {
        store.insert(card("netrunner", &format!("Card {}", i), &format!("{}", i)));
    }
    let found = store.find_by_prefix("Card", CANDIDATE_LIMIT);
    assert_eq!(found.len(), 10);
    assert_eq!(found[0].title, "Card 0");
    assert_eq!(found[9].title, "Card 9");
    assert_eq!(store.find_by_prefix("Card", 0).len(), 0);
    assert_eq!(store.find_by_prefix("Card", 12).len(), 12);
    assert_eq!(store.find_by_prefix("Card", 100).len(), 12);
}

#[test]
fn empty_query_matches_every_title() {
    let store = store_of(&[("A", "1"), ("B", "2")]);
    assert_eq!(store.find_by_prefix("", 10).len(), 2);
}

#[test]
fn query_longer_than_title_does_not_match() {
    let store = store_of(&[("Sure", "1")]);
    assert_eq!(store.find_by_prefix("Sure Gamble", 10).len(), 0);
    assert_eq!(store.find_by_prefix("Sure", 10).len(), 1);
}

#[test]
fn exact_query_returns_first_row_with_the_title() {
    let store = store_of(&[("Hedge Fund", "h"), ("Wyldside", "first"), ("Wyldside", "second")]);
    assert_eq!(store.find_exact("Wyldside"), Some(card("netrunner", "Wyldside", "first")));
    assert_eq!(store.find_exact("Hedge Fund"), Some(card("netrunner", "Hedge Fund", "h")));
}

#[test]
fn exact_query_finds_nothing_for_a_prefix_or_another_case() {
    let store = store_of(&[("Wyldside", "first")]);
    assert_eq!(store.find_exact("Wyld"), None);
    assert_eq!(store.find_exact("wyldside"), None);
    assert_eq!(store.find_exact(""), None);
    assert_eq!(CardStore::new().find_exact("Wyldside"), None);
}

#[test]
fn no_candidate_is_missing() {
    assert_eq!(classify(Vec::new()), Resolution::Missing);
}

#[test]
fn one_candidate_is_unique() {
    let only = card("netrunner", "Hedge Fund", "h");
    assert_eq!(classify(vec![only.clone()]), Resolution::Unique(only));
}

#[test]
fn candidates_with_one_title_name_the_title() {
    let rows = vec![
        card("netrunner", "Wyldside", "first"),
        card("netrunner", "Wyldside", "second"),
        card("netrunner", "Wyldside", "third"),
    ];
    assert_eq!(classify(rows), Resolution::SameTitle("Wyldside".to_string()));
}

#[test]
fn candidates_with_several_titles_are_ambiguous() {
    let rows = vec![
        card("netrunner", "Sure Gamble", "a"),
        card("netrunner", "Sure Gamble", "b"),
        card("netrunner", "Sure Gamble (Alt Art)", "c"),
    ];
    assert_eq!(
        classify(rows),
        Resolution::Ambiguous(vec!["Sure Gamble".to_string(), "Sure Gamble (Alt Art)".to_string()])
    );
}

#[test]
fn distinct_titles_keep_first_occurrence_order() {
    let rows = vec![
        card("g", "B", "1"),
        card("g", "A", "2"),
        card("g", "B", "3"),
        card("g", "C", "4"),
        card("g", "A", "5"),
    ];
    assert_eq!(distinct_titles(&rows), vec!["B".to_string(), "A".to_string(), "C".to_string()]);
    assert_eq!(distinct_titles(&Vec::new()), Vec::<String>::new());
}

#[test]
fn distinct_titles_tell_case_apart() {
    let rows = vec![card("g", "Sure", "1"), card("g", "sure", "2")];
    assert_eq!(distinct_titles(&rows).len(), 2);
}

#[test]
fn contains_text_compares_whole_strings() {
    let list = vec!["Sure Gamble".to_string(), "Wyldside".to_string()];
    assert!(contains_text(&list, &"Wyldside".to_string()));
    assert!(!contains_text(&list, &"Wyld".to_string()));
    assert!(!contains_text(&Vec::new(), &"Wyldside".to_string()));
}

#[test]
fn unmatched_query_has_no_candidates() {
    let store = store_of(&[("Sure Gamble", "a"), ("Hedge Fund", "b")]);
    assert_eq!(classify(store.find_by_prefix("Wyld", CANDIDATE_LIMIT)), Resolution::Missing);
}

#[test]
fn one_title_on_many_rows_resolves_to_the_first_row() {
    let store = store_of(&[("Hedge Fund", "h"), ("Wyldside", "first"), ("Wyldside", "second")]);
    let candidates = store.find_by_prefix("Wyld", CANDIDATE_LIMIT);
    let first = candidates[0].clone();
    match classify(candidates) {
        Resolution::SameTitle(title) => assert_eq!(store.find_exact(&title), Some(first)),
        other => panic!("expected one title, got {:?}", other),
    }
}

#[test]
fn eleventh_row_with_another_title_is_not_offered() {
    // Only the first ten matches are candidates: a second title that first
    // occurs behind them leads to no choice.
    let mut store = CardStore::new();
    for i in 0..10 {
        store.insert(card("netrunner", "Sure Gamble", &format!("{}", i)));
    }
    store.insert(card("netrunner", "Sure Gamble (Alt Art)", "alt"));
    let candidates = store.find_by_prefix("Sure", CANDIDATE_LIMIT);
    assert_eq!(classify(candidates), Resolution::SameTitle("Sure Gamble".to_string()));
}

#[test]
fn record_clone_is_equal() {
    let a = card("netrunner", "Wyldside", "{}");
    assert_eq!(a.clone(), a);
}
