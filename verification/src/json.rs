//! JSON values as the library reads and writes them.
//!
//! Parsing and rendering are `serde_json`'s. What the rest of the library looks at is the plain
//! tree [`Json`].

use vstd::prelude::*;

use crate::text;
use crate::text::same_text;

verus! {

/// A JSON value.
///
/// A number is kept only where it is an unsigned 64-bit integer: nothing here reads another one.
#[derive(Debug, PartialEq, Eq)]
pub enum Json {
    Null,
    Bool(bool),
    Unsigned(u64),
    /// A number that is no unsigned 64-bit integer.
    Number,
    Text(String),
    Array(Vec<Json>),
    Object(Vec<(String, Json)>),
}

/// The mathematical value of a [`Json`].
#[verifier::ext_equal]
pub enum JsonView {
    Null,
    Bool(bool),
    Unsigned(u64),
    Number,
    Text(Seq<char>),
    Array(Seq<JsonView>),
    Object(Seq<(Seq<char>, JsonView)>),
}

impl Json {
    /// The mathematical value.
    pub open spec fn tree(self) -> JsonView
        decreases self,
    {
        match self {
            Json::Null => JsonView::Null,
            Json::Bool(flag) => JsonView::Bool(flag),
            Json::Unsigned(number) => JsonView::Unsigned(number),
            Json::Number => JsonView::Number,
            Json::Text(text) => JsonView::Text(text@),
            Json::Array(items) => JsonView::Array(
                Seq::new(
                    items@.len(),
                    |i: int|
                        if 0 <= i < items@.len() {
                            items@[i].tree()
                        } else {
                            JsonView::Null
                        },
                ),
            ),
            Json::Object(entries) => JsonView::Object(
                Seq::new(
                    entries@.len(),
                    |i: int|
                        if 0 <= i < entries@.len() {
                            (entries@[i].0@, entries@[i].1.tree())
                        } else {
                            (Seq::empty(), JsonView::Null)
                        },
                ),
            ),
        }
    }
}

impl DeepView for Json {
    type V = JsonView;

    open spec fn deep_view(&self) -> JsonView {
        self.tree()
    }
}

// ── Reading a value ─────────────────────────────────────────────────

/// The value of the first entry under `key`.
pub open spec fn find_entry(entries: Seq<(Seq<char>, JsonView)>, key: Seq<char>) -> Option<JsonView>
    decreases entries.len(),
{
    if entries.len() == 0 {
        None
    } else if entries[0].0 == key {
        Some(entries[0].1)
    } else {
        find_entry(entries.drop_first(), key)
    }
}

/// The entry of an object under `key`; nothing for any other value.
pub open spec fn entry(value: Option<JsonView>, key: Seq<char>) -> Option<JsonView> {
    match value {
        Some(JsonView::Object(entries)) => find_entry(entries, key),
        _ => None,
    }
}

/// The characters of a string.
pub open spec fn text_of(value: Option<JsonView>) -> Option<Seq<char>> {
    match value {
        Some(JsonView::Text(text)) => Some(text),
        _ => None,
    }
}

/// The text under `key`.
pub open spec fn text_entry(value: JsonView, key: Seq<char>) -> Option<Seq<char>> {
    text_of(entry(Some(value), key))
}

/// Whether `true` stands under `key`.
pub open spec fn true_entry(value: JsonView, key: Seq<char>) -> bool {
    entry(Some(value), key) == Some(JsonView::Bool(true))
}

/// The entries of an object.
pub open spec fn entries_of(value: Option<JsonView>) -> Option<Seq<(Seq<char>, JsonView)>> {
    match value {
        Some(JsonView::Object(entries)) => Some(entries),
        _ => None,
    }
}

/// The value of the first of `entries` under `key`.
pub fn lookup<'a>(entries: &'a Vec<(String, Json)>, key: &str) -> (r: Option<&'a Json>)
    ensures
        r.deep_view() == find_entry(entries.deep_view(), key@),
{
    let mut i: usize = 0;
    assert(entries.deep_view().skip(0) =~= entries.deep_view());
    while i < entries.len()
        invariant
            i <= entries@.len(),
            find_entry(entries.deep_view().skip(i as int), key@) == find_entry(
                entries.deep_view(),
                key@,
            ),
        decreases entries@.len() - i,
    {
        let ghost rest = entries.deep_view().skip(i as int);
        assert(rest[0] == entries@[i as int].deep_view());
        if same_text(entries[i].0.as_str(), key) {
            return Some(&entries[i].1);
        }
        assert(rest.drop_first() =~= entries.deep_view().skip(i as int + 1));
        i = i + 1;
    }
    None
}

impl Json {
    /// The entry of an object under `key`; nothing for any other value.
    pub fn get(&self, key: &str) -> (r: Option<&Json>)
        ensures
            r.deep_view() == entry(Some(self.deep_view()), key@),
    {
        match self {
            Json::Object(entries) => {
                proof {
                    assert(self.deep_view()->Object_0 =~= entries.deep_view());
                }
                lookup(entries, key)
            },
            _ => None,
        }
    }

    /// The characters of a string.
    pub fn as_str(&self) -> (r: Option<&str>)
        ensures
            r.deep_view() == text_of(Some(self.deep_view())),
    {
        match self {
            Json::Text(text) => Some(text.as_str()),
            _ => None,
        }
    }

    /// The text under `key`.
    pub fn text_at(&self, key: &str) -> (r: Option<&str>)
        ensures
            r.deep_view() == text_entry(self.deep_view(), key@),
    {
        match self.get(key) {
            Some(value) => value.as_str(),
            None => None,
        }
    }

    /// Whether `true` stands under `key`.
    pub fn is_true_at(&self, key: &str) -> (r: bool)
        ensures
            r == true_entry(self.deep_view(), key@),
    {
        match self.get(key) {
            Some(Json::Bool(flag)) => *flag,
            _ => false,
        }
    }
}

// ── Building a value ────────────────────────────────────────────────

/// The object with these entries.
pub fn json_object(entries: Vec<(String, Json)>) -> (r: Json)
    ensures
        r.deep_view() == JsonView::Object(entries.deep_view()),
{
    let r = Json::Object(entries);
    assert(r.deep_view()->Object_0 =~= entries.deep_view());
    r
}

/// The array with these items.
pub fn json_array(items: Vec<Json>) -> (r: Json)
    ensures
        r.deep_view() == JsonView::Array(items.deep_view()),
{
    let r = Json::Array(items);
    assert(r.deep_view()->Array_0 =~= items.deep_view());
    r
}

/// The string with these characters.
pub fn json_text(text: &str) -> (r: Json)
    ensures
        r.deep_view() == JsonView::Text(text@),
{
    Json::Text(text.to_owned())
}

// ── serde_json ──────────────────────────────────────────────────────

/// `serde_json::Value`, carried from one call of that crate to the next.
#[verifier::external_type_specification]
#[verifier::external_body]
pub struct ExValue(serde_json::Value);

/// The tree that a `serde_json::Value` holds: its own variants, the entries of an object in the
/// order in which the object hands them out, and of a number whether it is a `u64` and which.
pub uninterp spec fn json_model(value: serde_json::Value) -> JsonView;

/// What `serde_json::from_str::<serde_json::Value>` reads in `text`: nothing where `text` is not
/// one JSON value.
pub uninterp spec fn json_of_text(text: Seq<char>) -> Option<JsonView>;

/// What `serde_json::to_vec` renders a plain tree as.
pub uninterp spec fn json_bytes(json: JsonView) -> Seq<u8>;

/// Whether a tree can be handed to `serde_json` and taken back as it is: every number is an
/// unsigned integer, and the keys of every object ascend, which is the order that crate's objects
/// keep.
pub open spec fn is_plain(json: JsonView) -> bool
    decreases json,
{
    match json {
        JsonView::Number => false,
        JsonView::Array(items) => forall|i: int|
            0 <= i < items.len() ==> is_plain(#[trigger] items[i]),
        JsonView::Object(entries) => {
            &&& text::ascending(Seq::new(entries.len(), |i: int| entries[i].0))
            &&& forall|i: int| 0 <= i < entries.len() ==> is_plain((#[trigger] entries[i]).1)
        },
        _ => true,
    }
}

/// Calls `serde_json::from_str`, which reads the whole of `text` as one value or reports an error.
/// The result is a function of the characters alone.
#[verifier::external_body]
fn parse_value(text: &str) -> (r: Option<serde_json::Value>)
    ensures
        json_of_text(text@) == (match r {
            Some(value) => Some(json_model(value)),
            None => None,
        }),
{
    serde_json::from_str::<serde_json::Value>(text).ok()
}

/// Takes a `serde_json::Value` apart, variant by variant; a number goes through
/// `serde_json::Number::as_u64`.
#[verifier::external_body]
fn json_from_value(value: serde_json::Value) -> (r: Json)
    ensures
        r.deep_view() == json_model(value),
{
    match value {
        serde_json::Value::Null => Json::Null,
        serde_json::Value::Bool(flag) => Json::Bool(flag),
        serde_json::Value::Number(number) => number.as_u64().map_or(Json::Number, Json::Unsigned),
        serde_json::Value::String(text) => Json::Text(text),
        serde_json::Value::Array(items) => Json::Array(items.into_iter().map(json_from_value).collect()),
        serde_json::Value::Object(entries) => {
            Json::Object(entries.into_iter().map(|(key, item)| (key, json_from_value(item))).collect())
        },
    }
}

/// Puts a `serde_json::Value` together, variant by variant. A number that is no unsigned integer
/// has lost its digits and becomes `null`; an object sorts its entries by key and keeps the last of
/// those under one key. So the tree is claimed to come through only where it is plain.
#[verifier::external_body]
fn value_from_json(json: &Json) -> (r: serde_json::Value)
    ensures
        is_plain(json.deep_view()) ==> json_model(r) == json.deep_view(),
{
    match json {
        Json::Null | Json::Number => serde_json::Value::Null,
        Json::Bool(flag) => serde_json::Value::Bool(*flag),
        Json::Unsigned(number) => serde_json::Value::from(*number),
        Json::Text(text) => serde_json::Value::String(text.clone()),
        Json::Array(items) => serde_json::Value::Array(items.iter().map(value_from_json).collect()),
        Json::Object(entries) => {
            entries.iter().map(|(key, item)| (key.clone(), value_from_json(item))).collect()
        },
    }
}

/// Calls `serde_json::to_vec`, which renders a value without white space between its parts. It
/// reports an error only for a map whose keys are no strings, or where its writer fails: a value has
/// no such map, and writing to a vector does not fail. So success is claimed of every value. The
/// bytes of a plain tree are a function of the tree. Of any value's bytes it is claimed that none
/// is a line feed: the renderer writes one neither between the parts of a value nor, where it
/// escapes every control character, inside a string.
#[verifier::external_body]
fn render_value(value: &serde_json::Value) -> (r: Option<Vec<u8>>)
    ensures
        r is Some,
        r matches Some(bytes) ==> is_plain(json_model(*value)) ==> bytes@ == json_bytes(
            json_model(*value),
        ),
        r matches Some(bytes) ==> forall|i: int| 0 <= i < bytes@.len() ==> bytes@[i] != 10u8,
{
    serde_json::to_vec(value).ok()
}

/// Reads `text` as one JSON value.
pub fn read_json(text: &str) -> (r: Option<Json>)
    ensures
        r.deep_view() == json_of_text(text@),
{
    match parse_value(text) {
        Some(value) => Some(json_from_value(value)),
        None => None,
    }
}

/// The bytes of `json` as a line of its own, ended by a line feed.
pub open spec fn line_bytes(json: JsonView) -> Seq<u8> {
    json_bytes(json).push(10u8)
}

/// Whether `bytes` is exactly one line: one line feed, at its end.
pub open spec fn is_one_line(bytes: Seq<u8>) -> bool {
    &&& bytes.len() > 0
    &&& bytes.last() == 10u8
    &&& forall|i: int| 0 <= i < bytes.len() - 1 ==> bytes[i] != 10u8
}

/// Renders `json` as a line of its own.
pub fn json_line(json: &Json) -> (r: Vec<u8>)
    requires
        is_plain(json.deep_view()),
    ensures
        r@ == line_bytes(json.deep_view()),
        is_one_line(r@),
{
    let value = value_from_json(json);
    let mut bytes = render_value(&value).unwrap();
    bytes.push(10u8);
    bytes
}

/// An object's entry is the first one under its key; a key that no entry has finds nothing.
pub proof fn first_entry_is_found(entries: Seq<(Seq<char>, JsonView)>, key: Seq<char>)
    ensures
        match find_entry(entries, key) {
            Some(value) => exists|i: int|
                0 <= i < entries.len() && (#[trigger] entries[i]).0 == key && entries[i].1 == value
                    && forall|j: int| 0 <= j < i ==> (#[trigger] entries[j]).0 != key,
            None => forall|i: int| 0 <= i < entries.len() ==> (#[trigger] entries[i]).0 != key,
        },
    decreases entries.len(),
{
    if entries.len() > 0 {
        let rest = entries.drop_first();
        first_entry_is_found(rest, key);
        assert forall|i: int| 0 <= i < rest.len() implies #[trigger] rest[i] == entries[i + 1] by {
        }
        if entries[0].0 == key {
            assert(entries[0].1 == find_entry(entries, key)->Some_0);
        } else if let Some(value) = find_entry(rest, key) {
            let i = choose|i: int|
                0 <= i < rest.len() && (#[trigger] rest[i]).0 == key && rest[i].1 == value
                    && forall|j: int| 0 <= j < i ==> (#[trigger] rest[j]).0 != key;
            assert(entries[i + 1].0 == key && entries[i + 1].1 == value);
            assert forall|j: int| 0 <= j < i + 1 implies (#[trigger] entries[j]).0 != key by {
                if j > 0 {
                    assert(rest[j - 1] == entries[j]);
                }
            }
        } else {
            assert forall|i: int| 0 <= i < entries.len() implies (#[trigger] entries[i]).0 != key by {
                if i > 0 {
                    assert(rest[i - 1] == entries[i]);
                }
            }
        }
    }
}

/// Only an object has entries, only a text is read as one, and only `true` is true.
pub proof fn values_are_read_by_kind(value: JsonView, key: Seq<char>)
    ensures
        value !is Object ==> entry(Some(value), key) is None && text_entry(value, key) is None
            && !true_entry(value, key),
        value matches JsonView::Object(entries) ==> {
            &&& entry(Some(value), key) == find_entry(entries, key)
            &&& text_entry(value, key) matches Some(text) ==> find_entry(entries, key) == Some(
                JsonView::Text(text),
            )
            &&& find_entry(entries, key) matches Some(JsonView::Text(text)) ==> text_entry(value, key)
                == Some(text)
            &&& true_entry(value, key) <==> find_entry(entries, key) == Some(JsonView::Bool(true))
        },
        entry(None, key) is None,
{
}

} // verus!
