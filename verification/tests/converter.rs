use card_lookup::document::RenderDocument;
use card_lookup::scripting::value::{ScriptObject, ScriptValue};
use card_lookup::scripting::{
    try_from_rune_object_to_embed, ConversionError, ExpectedType, RecognizedKey, RenderRequest,
};
use card_lookup::record::CardRecord;

fn text(s: &str) -> ScriptValue {
    ScriptValue::Text(s.to_string())
}

fn object(entries: Vec<(&str, ScriptValue)>) -> ScriptObject {
    ScriptObject { entries: entries.into_iter().map(|(k, v)| (k.to_string(), v)).collect() }
}

fn full_object() -> ScriptObject {
    object(vec![
        ("title", text("Wyldside")),
        ("color", ScriptValue::Integer(0x3366ff)),
        ("url", text("https://example.org/wyldside")),
        ("thumbnail", text("https://example.org/wyldside.jpg")),
        ("field", ScriptValue::Tuple(vec![text("Resource: Location"), text("Draw 2 cards.")])),
        ("footer", text("Criminal \u{2022} Core Set")),
    ])
}

#[test]
fn title_and_footer_alone_set_two_parts() {
    let obj = object(vec![("title", text("Wyldside")), ("footer", text("Criminal \u{2022} Core Set"))]);
    let doc = try_from_rune_object_to_embed(&obj).unwrap();
    assert_eq!(
        doc,
        RenderDocument {
            title: Some("Wyldside".to_string()),
            color: None,
            url: None,
            thumbnail: None,
            field: None,
            footer: Some("Criminal \u{2022} Core Set".to_string()),
        }
    );
}

#[test]
fn every_recognized_key_gives_its_part() {
    let doc = try_from_rune_object_to_embed(&full_object()).unwrap();
    assert_eq!(doc.title.as_deref(), Some("Wyldside"));
    assert_eq!(doc.color, Some(0x3366ff));
    assert_eq!(doc.url.as_deref(), Some("https://example.org/wyldside"));
    assert_eq!(doc.thumbnail.as_deref(), Some("https://example.org/wyldside.jpg"));
    assert_eq!(doc.field, Some(("Resource: Location".to_string(), "Draw 2 cards.".to_string())));
    assert_eq!(doc.footer.as_deref(), Some("Criminal \u{2022} Core Set"));
    assert!(!doc.is_empty());
}

#[test]
fn empty_mapping_gives_empty_document() {
    let doc = try_from_rune_object_to_embed(&object(vec![])).unwrap();
    assert_eq!(doc, RenderDocument::empty());
    assert!(doc.is_empty());
}

#[test]
fn converting_twice_gives_the_same_document() {
    let obj = full_object();
    let first = try_from_rune_object_to_embed(&obj);
    let second = try_from_rune_object_to_embed(&obj);
    assert_eq!(first, second);
    let bad = object(vec![("color", text("red"))]);
    assert_eq!(try_from_rune_object_to_embed(&bad), try_from_rune_object_to_embed(&bad));
}

#[test]
fn unrecognized_keys_are_ignored() {
    let plain = object(vec![("title", text("Wyldside")), ("footer", text("Core Set"))]);
    let extra = object(vec![
        ("debug", ScriptValue::Other),
        ("title", text("Wyldside")),
        ("Title", ScriptValue::Integer(1)),
        ("footer", text("Core Set")),
        ("colour", text("red")),
        ("nested", ScriptValue::Object(object(vec![("title", ScriptValue::Integer(3))]))),
    ]);
    assert_eq!(try_from_rune_object_to_embed(&extra), try_from_rune_object_to_embed(&plain));
}

#[test]
fn color_as_a_string_is_a_conversion_error() {
    let obj = object(vec![("title", text("Wyldside")), ("color", text("red"))]);
    assert_eq!(
        try_from_rune_object_to_embed(&obj),
        Err(ConversionError { key: RecognizedKey::Color, expected: ExpectedType::SignedInteger })
    );
}

#[test]
fn each_key_with_the_wrong_kind_is_named() {
    let cases = vec![
        ("title", ScriptValue::Integer(1), RecognizedKey::Title, ExpectedType::Text),
        ("color", ScriptValue::Other, RecognizedKey::Color, ExpectedType::SignedInteger),
        ("url", ScriptValue::Tuple(vec![]), RecognizedKey::Url, ExpectedType::Text),
        ("thumbnail", ScriptValue::Object(object(vec![])), RecognizedKey::Thumbnail, ExpectedType::Text),
        ("field", text("header"), RecognizedKey::Field, ExpectedType::TextPair),
        ("footer", ScriptValue::Integer(7), RecognizedKey::Footer, ExpectedType::Text),
    ];
    for (key, value, named, expected) in cases {
        let obj = object(vec![(key, value)]);
        assert_eq!(try_from_rune_object_to_embed(&obj), Err(ConversionError { key: named, expected }));
    }
}

#[test]
fn first_mismatch_in_reading_order_is_reported() {
    let obj = object(vec![
        ("footer", ScriptValue::Integer(1)),
        ("url", ScriptValue::Integer(2)),
        ("color", text("red")),
    ]);
    assert_eq!(
        try_from_rune_object_to_embed(&obj),
        Err(ConversionError { key: RecognizedKey::Color, expected: ExpectedType::SignedInteger })
    );
}

#[test]
fn field_must_be_a_tuple_of_two_texts() {
    let pair_error = Err(ConversionError { key: RecognizedKey::Field, expected: ExpectedType::TextPair });
    let one = object(vec![("field", ScriptValue::Tuple(vec![text("a")]))]);
    let three = object(vec![("field", ScriptValue::Tuple(vec![text("a"), text("b"), text("c")]))]);
    let mixed = object(vec![("field", ScriptValue::Tuple(vec![text("a"), ScriptValue::Integer(1)]))]);
    let mixed_first = object(vec![("field", ScriptValue::Tuple(vec![ScriptValue::Other, text("b")]))]);
    let none = object(vec![("field", ScriptValue::Tuple(vec![]))]);
    assert_eq!(try_from_rune_object_to_embed(&one), pair_error);
    assert_eq!(try_from_rune_object_to_embed(&three), pair_error);
    assert_eq!(try_from_rune_object_to_embed(&mixed), pair_error);
    assert_eq!(try_from_rune_object_to_embed(&mixed_first), pair_error);
    assert_eq!(try_from_rune_object_to_embed(&none), pair_error);
}

#[test]
fn missing_keys_are_never_errors() {
    for key in ["title", "color", "url", "thumbnail", "field", "footer"] {
        let others: Vec<(&str, ScriptValue)> = full_object()
            .entries
            .into_iter()
            .filter(|(k, _)| k != key)
            .map(|(k, v)| (if k == "title" { "title" } else if k == "color" { "color" } else if k == "url" { "url" } else if k == "thumbnail" { "thumbnail" } else if k == "field" { "field" } else { "footer" }, v))
            .collect();
        assert_eq!(others.len(), 5);
        assert!(try_from_rune_object_to_embed(&object(others)).is_ok());
    }
}

#[test]
fn negative_and_extreme_colors_are_kept() {
    for color in [-1i64, 0, i64::MIN, i64::MAX] {
        let obj = object(vec![("color", ScriptValue::Integer(color))]);
        assert_eq!(try_from_rune_object_to_embed(&obj).unwrap().color, Some(color));
    }
}

#[test]
fn first_entry_of_a_repeated_key_counts() {
    let obj = object(vec![("title", text("first")), ("title", ScriptValue::Integer(2))]);
    assert_eq!(try_from_rune_object_to_embed(&obj).unwrap().title.as_deref(), Some("first"));
    assert_eq!(obj.get("title"), Some(&text("first")));
    assert_eq!(obj.get("footer"), None);
}

#[test]
fn conversion_error_message_names_key_and_kind() {
    let error = ConversionError { key: RecognizedKey::Color, expected: ExpectedType::SignedInteger };
    assert_eq!(error.message(), "key `color` must hold a signed integer");
    let error = ConversionError { key: RecognizedKey::Field, expected: ExpectedType::TextPair };
    assert_eq!(error.message(), "key `field` must hold a tuple of two strings");
    let error = ConversionError { key: RecognizedKey::Title, expected: ExpectedType::Text };
    assert_eq!(error.message(), "key `title` must hold a string");
}

#[test]
fn recognized_keys_have_their_names_and_kinds() {
    assert_eq!(RecognizedKey::Title.as_str(), "title");
    assert_eq!(RecognizedKey::Color.as_str(), "color");
    assert_eq!(RecognizedKey::Url.as_str(), "url");
    assert_eq!(RecognizedKey::Thumbnail.as_str(), "thumbnail");
    assert_eq!(RecognizedKey::Field.as_str(), "field");
    assert_eq!(RecognizedKey::Footer.as_str(), "footer");
    assert_eq!(RecognizedKey::Color.expected_type(), ExpectedType::SignedInteger);
    assert_eq!(RecognizedKey::Field.expected_type(), ExpectedType::TextPair);
    assert_eq!(RecognizedKey::Footer.expected_type(), ExpectedType::Text);
}

#[test]
fn render_request_calls_embed_of_the_records_game() {
    let record = CardRecord {
        game: "netrunner".to_string(),
        title: "Wyldside".to_string(),
        payload: "{\"code\":\"01016\"}".to_string(),
    };
    assert_eq!(
        RenderRequest::for_record(&record),
        RenderRequest {
            game: "netrunner".to_string(),
            function: "embed".to_string(),
            payload: "{\"code\":\"01016\"}".to_string(),
        }
    );
}

#[test]
fn document_clone_is_equal() {
    let doc = try_from_rune_object_to_embed(&full_object()).unwrap();
    assert_eq!(doc.clone(), doc);
}
