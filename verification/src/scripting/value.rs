//! What a script hands back: a loosely typed value, held as plain data.

use vstd::prelude::*;
use crate::text::same_text;

verus! {

/// A value that a script returned: a text, a signed integer, a tuple of
/// values, a mapping from keys to values, or a value of any other kind.
#[derive(Debug, PartialEq, Eq)]
pub enum ScriptValue {
    Text(String),
    Integer(i64),
    Tuple(Vec<ScriptValue>),
    Object(ScriptObject),
    Other,
}

/// A mapping from keys to values, as a list of entries. Where a key occurs
/// more than once, its first entry counts.
#[derive(Debug, PartialEq, Eq)]
pub struct ScriptObject {
    pub entries: Vec<(String, ScriptValue)>,
}

/// What a [`ScriptValue`] holds.
pub enum ScriptValueView {
    Text(Seq<char>),
    Integer(int),
    Tuple(Seq<ScriptValueView>),
    Object(Seq<(Seq<char>, ScriptValueView)>),
    Other,
}

impl View for ScriptValue {
    type V = ScriptValueView;

    open spec fn view(&self) -> ScriptValueView
        decreases self,
    {
        match self {
            ScriptValue::Text(s) => ScriptValueView::Text(s@),
            ScriptValue::Integer(i) => ScriptValueView::Integer(*i as int),
            ScriptValue::Tuple(items) => ScriptValueView::Tuple(
                Seq::new(
                    items@.len(),
                    |i: int|
                        if 0 <= i < items@.len() {
                            items@[i].view()
                        } else {
                            ScriptValueView::Other
                        },
                ),
            ),
            ScriptValue::Object(object) => ScriptValueView::Object(object.view()),
            ScriptValue::Other => ScriptValueView::Other,
        }
    }
}

impl View for ScriptObject {
    type V = Seq<(Seq<char>, ScriptValueView)>;

    open spec fn view(&self) -> Seq<(Seq<char>, ScriptValueView)>
        decreases self,
    {
        Seq::new(
            self.entries@.len(),
            |i: int|
                if 0 <= i < self.entries@.len() {
                    (self.entries@[i].0@, self.entries@[i].1.view())
                } else {
                    (Seq::empty(), ScriptValueView::Other)
                },
        )
    }
}

/// The value that a mapping holds under `key`: that of the first entry with
/// the key.
pub open spec fn lookup(entries: Seq<(Seq<char>, ScriptValueView)>, key: Seq<char>) -> Option<
    ScriptValueView,
>
    decreases entries.len(),
{
    if entries.len() == 0 {
        None
    } else if entries[0].0 == key {
        Some(entries[0].1)
    } else {
        lookup(entries.drop_first(), key)
    }
}

/// A key that no entry carries has no value, and a key has a value when an
/// entry carries it.
pub proof fn lookup_is_some_iff_key_occurs(
    entries: Seq<(Seq<char>, ScriptValueView)>,
    key: Seq<char>,
)
    ensures
        lookup(entries, key) is Some <==> exists|i: int|
            0 <= i < entries.len() && (#[trigger] entries[i]).0 == key,
    decreases entries.len(),
{
    if entries.len() > 0 && entries[0].0 != key {
        let rest = entries.drop_first();
        lookup_is_some_iff_key_occurs(rest, key);
        if lookup(rest, key) is Some {
            let i = choose|i: int| 0 <= i < rest.len() && (#[trigger] rest[i]).0 == key;
            assert(entries[i + 1].0 == key);
        }
        if exists|i: int| 0 <= i < entries.len() && (#[trigger] entries[i]).0 == key {
            let i = choose|i: int| 0 <= i < entries.len() && (#[trigger] entries[i]).0 == key;
            assert(rest[i - 1].0 == key);
        }
    }
}

/// The view of an optional value.
pub open spec fn value_view(value: Option<&ScriptValue>) -> Option<ScriptValueView> {
    match value {
        Some(v) => Some(v@),
        None => None,
    }
}

impl ScriptObject {
    /// The value under `key`, if the mapping has the key.
    pub fn get(&self, key: &str) -> (value: Option<&ScriptValue>)
        ensures
            value_view(value) == lookup(self@, key@),
    {
        let mut i: usize = 0;
        assert(self@.skip(0) =~= self@);
        while i < self.entries.len()
            invariant
                i <= self.entries.len(),
                lookup(self@, key@) == lookup(self@.skip(i as int), key@),
            decreases self.entries.len() - i,
        {
            let entry = &self.entries[i];
            if same_text(entry.0.as_str(), key) {
                return Some(&entry.1);
            }
            assert(self@.skip(i as int).drop_first() =~= self@.skip(i as int + 1));
            i += 1;
        }
        None
    }
}

} // verus!
