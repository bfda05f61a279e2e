//! The bridge to the render scripts: what is asked of a script, and how what
//! it returns becomes a document.

pub mod engine;
pub mod loader;
pub mod regex;
pub mod value;

use vstd::prelude::*;
use vstd::string::*;
use crate::document::{text_view, RenderDocument, RenderDocumentView};
use crate::record::{CardRecord, CardRecordView};
use crate::scripting::value::{
    lookup, lookup_is_some_iff_key_occurs, ScriptObject, ScriptValue, ScriptValueView,
};

verus! {

/// The name of the function that every game's script exposes.
pub open spec fn embed_name() -> Seq<char> {
    "embed"@
}

/// One call of a game's script: the game, the function, and the payload
/// that the function gets as its one argument.
#[derive(Clone, Debug, PartialEq, Eq)]
pub struct RenderRequest {
    pub game: String,
    pub function: String,
    pub payload: String,
}

/// What a [`RenderRequest`] holds.
pub struct RenderRequestView {
    pub game: Seq<char>,
    pub function: Seq<char>,
    pub payload: Seq<char>,
}

impl View for RenderRequest {
    type V = RenderRequestView;

    open spec fn view(&self) -> RenderRequestView {
        RenderRequestView { game: self.game@, function: self.function@, payload: self.payload@ }
    }
}

impl RenderRequestView {
    /// The call that renders `record`: its game's `embed`, on its payload.
    pub open spec fn for_record(record: CardRecordView) -> RenderRequestView {
        RenderRequestView { game: record.game, function: embed_name(), payload: record.payload }
    }
}

impl RenderRequest {
    /// The call that renders `record`.
    pub fn for_record(record: &CardRecord) -> (request: RenderRequest)
        ensures
            request@ == RenderRequestView::for_record(record@),
    {
        RenderRequest {
            game: record.game.clone(),
            function: String::from_str("embed"),
            payload: record.payload.clone(),
        }
    }
}

/// The keys of a script's mapping that a document is made from, in the order
/// in which they are read.
#[derive(Clone, Copy, Debug, PartialEq, Eq, Structural)]
pub enum RecognizedKey {
    Title,
    Color,
    Url,
    Thumbnail,
    Field,
    Footer,
}

/// The kind of value that a recognized key must hold.
#[derive(Clone, Copy, Debug, PartialEq, Eq, Structural)]
pub enum ExpectedType {
    /// A text.
    Text,
    /// A signed integer.
    SignedInteger,
    /// A tuple of exactly two texts.
    TextPair,
}

/// A recognized key held a value of another kind than the key requires.
#[derive(Clone, Copy, Debug, PartialEq, Eq, Structural)]
pub struct ConversionError {
    pub key: RecognizedKey,
    pub expected: ExpectedType,
}

impl RecognizedKey {
    /// The key as scripts write it.
    pub open spec fn name(self) -> Seq<char> {
        match self {
            RecognizedKey::Title => "title"@,
            RecognizedKey::Color => "color"@,
            RecognizedKey::Url => "url"@,
            RecognizedKey::Thumbnail => "thumbnail"@,
            RecognizedKey::Field => "field"@,
            RecognizedKey::Footer => "footer"@,
        }
    }

    /// The kind of value that the key must hold.
    pub open spec fn expected(self) -> ExpectedType {
        match self {
            RecognizedKey::Color => ExpectedType::SignedInteger,
            RecognizedKey::Field => ExpectedType::TextPair,
            _ => ExpectedType::Text,
        }
    }

    /// The key as scripts write it.
    pub fn as_str(self) -> (name: &'static str)
        ensures
            name@ == self.name(),
    {
        match self {
            RecognizedKey::Title => "title",
            RecognizedKey::Color => "color",
            RecognizedKey::Url => "url",
            RecognizedKey::Thumbnail => "thumbnail",
            RecognizedKey::Field => "field",
            RecognizedKey::Footer => "footer",
        }
    }

    /// The kind of value that the key must hold.
    pub fn expected_type(self) -> (expected: ExpectedType)
        ensures
            expected == self.expected(),
    {
        match self {
            RecognizedKey::Color => ExpectedType::SignedInteger,
            RecognizedKey::Field => ExpectedType::TextPair,
            _ => ExpectedType::Text,
        }
    }
}

impl ExpectedType {
    /// The kind in words.
    pub open spec fn words(self) -> Seq<char> {
        match self {
            ExpectedType::Text => "a string"@,
            ExpectedType::SignedInteger => "a signed integer"@,
            ExpectedType::TextPair => "a tuple of two strings"@,
        }
    }

    /// The kind in words.
    pub fn as_str(self) -> (words: &'static str)
        ensures
            words@ == self.words(),
    {
        match self {
            ExpectedType::Text => "a string",
            ExpectedType::SignedInteger => "a signed integer",
            ExpectedType::TextPair => "a tuple of two strings",
        }
    }
}

impl ConversionError {
    /// The error for `key` holding a value of the wrong kind.
    pub open spec fn at(key: RecognizedKey) -> ConversionError {
        ConversionError { key, expected: key.expected() }
    }

    /// The message: the key, then the kind of value it must hold.
    pub open spec fn message_of(self) -> Seq<char> {
        "key `"@ + self.key.name() + "` must hold "@ + self.expected.words()
    }

    /// A message that names the key and the kind of value it must hold.
    pub fn message(&self) -> (text: String)
        ensures
            text@ == self.message_of(),
    {
        let mut text = String::from_str("key `");
        text.append(self.key.as_str());
        text.append("` must hold ");
        text.append(self.expected.as_str());
        text
    }
}

/// Whether `value` is of the kind `expected`.
pub open spec fn fits(value: ScriptValueView, expected: ExpectedType) -> bool {
    match expected {
        ExpectedType::Text => value is Text,
        ExpectedType::SignedInteger => value is Integer,
        ExpectedType::TextPair => {
            &&& value matches ScriptValueView::Tuple(items)
            &&& items.len() == 2
            &&& items[0] is Text
            &&& items[1] is Text
        },
    }
}

/// Whether the mapping holds `key` with a value of another kind than the key
/// requires.
pub open spec fn mismatch(object: Seq<(Seq<char>, ScriptValueView)>, key: RecognizedKey) -> bool {
    lookup(object, key.name()) matches Some(value) && !fits(value, key.expected())
}

/// The text under `key`, where the mapping has one there.
pub open spec fn text_at(
    object: Seq<(Seq<char>, ScriptValueView)>,
    key: RecognizedKey,
) -> Option<Seq<char>> {
    match lookup(object, key.name()) {
        Some(ScriptValueView::Text(s)) => Some(s),
        _ => None,
    }
}

/// The integer under `key`, where the mapping has one there.
pub open spec fn integer_at(
    object: Seq<(Seq<char>, ScriptValueView)>,
    key: RecognizedKey,
) -> Option<int> {
    match lookup(object, key.name()) {
        Some(ScriptValueView::Integer(i)) => Some(i),
        _ => None,
    }
}

/// The two texts under `key`, where the mapping has a tuple of two texts there.
pub open spec fn pair_at(
    object: Seq<(Seq<char>, ScriptValueView)>,
    key: RecognizedKey,
) -> Option<(Seq<char>, Seq<char>)> {
    match lookup(object, key.name()) {
        Some(ScriptValueView::Tuple(items)) => if items.len() == 2 {
            match (items[0], items[1]) {
                (ScriptValueView::Text(header), ScriptValueView::Text(body)) => Some(
                    (header, body),
                ),
                _ => None,
            }
        } else {
            None
        },
        _ => None,
    }
}

/// The document that a script's mapping describes: each recognized key that
/// is present gives its part, absent keys give none, other keys are not
/// looked at; or the error for the first recognized key, in reading order,
/// whose value is of the wrong kind.
pub open spec fn convert(object: Seq<(Seq<char>, ScriptValueView)>) -> Result<
    RenderDocumentView,
    ConversionError,
> {
    if mismatch(object, RecognizedKey::Title) {
        Err(ConversionError::at(RecognizedKey::Title))
    } else if mismatch(object, RecognizedKey::Color) {
        Err(ConversionError::at(RecognizedKey::Color))
    } else if mismatch(object, RecognizedKey::Url) {
        Err(ConversionError::at(RecognizedKey::Url))
    } else if mismatch(object, RecognizedKey::Thumbnail) {
        Err(ConversionError::at(RecognizedKey::Thumbnail))
    } else if mismatch(object, RecognizedKey::Field) {
        Err(ConversionError::at(RecognizedKey::Field))
    } else if mismatch(object, RecognizedKey::Footer) {
        Err(ConversionError::at(RecognizedKey::Footer))
    } else {
        Ok(
            RenderDocumentView {
                title: text_at(object, RecognizedKey::Title),
                color: integer_at(object, RecognizedKey::Color),
                url: text_at(object, RecognizedKey::Url),
                thumbnail: text_at(object, RecognizedKey::Thumbnail),
                field: pair_at(object, RecognizedKey::Field),
                footer: text_at(object, RecognizedKey::Footer),
            },
        )
    }
}

/// The view of a conversion's result.
pub open spec fn converted_view(result: Result<RenderDocument, ConversionError>) -> Result<
    RenderDocumentView,
    ConversionError,
> {
    match result {
        Ok(document) => Ok(document@),
        Err(error) => Err(error),
    }
}

/// Reads the text under a key that must hold a text.
fn text_entry(object: &ScriptObject, key: RecognizedKey) -> (r: Result<
    Option<String>,
    ConversionError,
>)
    requires
        key.expected() == ExpectedType::Text,
    ensures
        mismatch(object@, key) ==> r == Err::<Option<String>, ConversionError>(
            ConversionError::at(key),
        ),
        !mismatch(object@, key) ==> r is Ok && text_view(r->Ok_0) == text_at(object@, key),
{
    match object.get(key.as_str()) {
        None => Ok(None),
        Some(ScriptValue::Text(s)) => Ok(Some(s.clone())),
        Some(_) => Err(ConversionError { key, expected: ExpectedType::Text }),
    }
}

/// Reads the integer under a key that must hold a signed integer.
fn integer_entry(object: &ScriptObject, key: RecognizedKey) -> (r: Result<
    Option<i64>,
    ConversionError,
>)
    requires
        key.expected() == ExpectedType::SignedInteger,
    ensures
        mismatch(object@, key) ==> r == Err::<Option<i64>, ConversionError>(
            ConversionError::at(key),
        ),
        !mismatch(object@, key) ==> r is Ok && (match r->Ok_0 {
            Some(i) => Some(i as int),
            None => None,
        }) == integer_at(object@, key),
{
    match object.get(key.as_str()) {
        None => Ok(None),
        Some(ScriptValue::Integer(i)) => Ok(Some(*i)),
        Some(_) => Err(ConversionError { key, expected: ExpectedType::SignedInteger }),
    }
}

/// Reads the two texts under a key that must hold a tuple of two texts.
fn pair_entry(object: &ScriptObject, key: RecognizedKey) -> (r: Result<
    Option<(String, String)>,
    ConversionError,
>)
    requires
        key.expected() == ExpectedType::TextPair,
    ensures
        mismatch(object@, key) ==> r == Err::<Option<(String, String)>, ConversionError>(
            ConversionError::at(key),
        ),
        !mismatch(object@, key) ==> r is Ok && (match r->Ok_0 {
            Some((header, body)) => Some((header@, body@)),
            None => None,
        }) == pair_at(object@, key),
{
    match object.get(key.as_str()) {
        None => Ok(None),
        Some(ScriptValue::Tuple(items)) => {
            proof {
                let seen = lookup(object@, key.name())->0->Tuple_0;
                if items@.len() == 2 {
                    assert(seen[0] == items@[0]@);
                    assert(seen[1] == items@[1]@);
                }
            }
            if items.len() == 2 {
                match (&items[0], &items[1]) {
                    (ScriptValue::Text(header), ScriptValue::Text(body)) => Ok(
                        Some((header.clone(), body.clone())),
                    ),
                    _ => Err(ConversionError { key, expected: ExpectedType::TextPair }),
                }
            } else {
                Err(ConversionError { key, expected: ExpectedType::TextPair })
            }
        },
        Some(_) => Err(ConversionError { key, expected: ExpectedType::TextPair }),
    }
}

/// Makes a document from the mapping that a script returned.
///
/// Reads the recognized keys in their order. A key that is absent leaves its
/// part of the document unset; a key that is not recognized is not looked
/// at. The first recognized key whose value is of the wrong kind ends the
/// conversion with the error that names it.
pub fn try_from_rune_object_to_embed(obj: &ScriptObject) -> (result: Result<
    RenderDocument,
    ConversionError,
>)
    ensures
        converted_view(result) == convert(obj@),
{
    let title = match text_entry(obj, RecognizedKey::Title) {
        Ok(v) => v,
        Err(e) => { return Err(e); },
    };
    let color = match integer_entry(obj, RecognizedKey::Color) {
        Ok(v) => v,
        Err(e) => { return Err(e); },
    };
    let url = match text_entry(obj, RecognizedKey::Url) {
        Ok(v) => v,
        Err(e) => { return Err(e); },
    };
    let thumbnail = match text_entry(obj, RecognizedKey::Thumbnail) {
        Ok(v) => v,
        Err(e) => { return Err(e); },
    };
    let field = match pair_entry(obj, RecognizedKey::Field) {
        Ok(v) => v,
        Err(e) => { return Err(e); },
    };
    let footer = match text_entry(obj, RecognizedKey::Footer) {
        Ok(v) => v,
        Err(e) => { return Err(e); },
    };
    Ok(RenderDocument { title, color, url, thumbnail, field, footer })
}

/// Whether scripts' mappings are read under `key`.
pub open spec fn is_recognized(key: Seq<char>) -> bool {
    exists|k: RecognizedKey| k.name() == key
}

/// Converting the same mapping twice gives the same result: two documents
/// made from one mapping hold the same characters and the same integer in
/// every part, and two failures name the same key.
pub proof fn conversion_is_repeatable(
    object: ScriptObject,
    first: Result<RenderDocument, ConversionError>,
    second: Result<RenderDocument, ConversionError>,
)
    requires
        converted_view(first) == convert(object@),
        converted_view(second) == convert(object@),
    ensures
        converted_view(first) == converted_view(second),
        first is Ok <==> second is Ok,
        first matches Ok(a) ==> second matches Ok(b) && a@ == b@,
{
}

/// An entry under a key that is not recognized changes no lookup of another
/// key, wherever in the mapping it stands.
pub proof fn lookup_passes_other_keys(
    object: Seq<(Seq<char>, ScriptValueView)>,
    at: int,
    key: Seq<char>,
    value: ScriptValueView,
    wanted: Seq<char>,
)
    requires
        0 <= at <= object.len(),
        key != wanted,
    ensures
        lookup(object.insert(at, (key, value)), wanted) == lookup(object, wanted),
    decreases object.len(),
{
    let longer = object.insert(at, (key, value));
    if at == 0 {
        assert(longer.drop_first() =~= object);
    } else {
        if object[0].0 != wanted {
            assert(longer.drop_first() =~= object.drop_first().insert(at - 1, (key, value)));
            lookup_passes_other_keys(object.drop_first(), at - 1, key, value, wanted);
        }
    }
}

/// A mapping with an extra entry under a key that is not recognized converts
/// as the mapping without it does.
pub proof fn unrecognized_key_is_ignored(
    object: Seq<(Seq<char>, ScriptValueView)>,
    at: int,
    key: Seq<char>,
    value: ScriptValueView,
)
    requires
        0 <= at <= object.len(),
        !is_recognized(key),
    ensures
        convert(object.insert(at, (key, value))) == convert(object),
{
    assert forall|k: RecognizedKey|
        lookup(object.insert(at, (key, value)), #[trigger] k.name()) == lookup(
            object,
            k.name(),
        ) by {
        lookup_passes_other_keys(object, at, key, value, k.name());
    }
}

/// A conversion fails exactly when some recognized key is present with a
/// value of the wrong kind. The error names such a key, the first in reading
/// order, and the kind it must hold. A key that is absent, that no entry of
/// the mapping carries, is never named.
pub proof fn conversion_fails_iff_a_key_mismatches(object: Seq<(Seq<char>, ScriptValueView)>)
    ensures
        convert(object) is Err <==> exists|key: RecognizedKey| mismatch(object, key),
        convert(object) matches Err(error) ==> {
            &&& mismatch(object, error.key)
            &&& error.expected == error.key.expected()
            &&& exists|i: int| 0 <= i < object.len() && (#[trigger] object[i]).0 == error.key.name()
        },
        forall|key: RecognizedKey|
            (forall|i: int| 0 <= i < object.len() ==> (#[trigger] object[i]).0 != key.name())
                ==> !mismatch(object, key),
{
    assert forall|key: RecognizedKey|
        (forall|i: int|
            0 <= i < object.len() ==> (#[trigger] object[i]).0 != key.name()) implies !mismatch(
        object,
        key,
    ) by {
        lookup_is_some_iff_key_occurs(object, key.name());
    }
    if convert(object) is Err {
        lookup_is_some_iff_key_occurs(object, convert(object)->Err_0.key.name());
    }
    if exists|key: RecognizedKey| mismatch(object, key) {
        let key = choose|key: RecognizedKey| mismatch(object, key);
        match key {
            RecognizedKey::Title => {},
            RecognizedKey::Color => {},
            RecognizedKey::Url => {},
            RecognizedKey::Thumbnail => {},
            RecognizedKey::Field => {},
            RecognizedKey::Footer => {},
        }
    }
}

} // verus!
