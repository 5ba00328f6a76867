//! The JSON values a form receives and stores, held as plain values.
//!
//! Parsing and printing JSON is done at the edge; what reaches the library is the value itself,
//! with the two things the rules read from it that are not structure: the order of a number
//! and the compact text of a number, array, or object.

use vstd::prelude::*;
use crate::text::{owned, push_str};

verus! {

/// A JSON number. `order` is an integer whose order is the order of the numbers' `f64` values
/// (equal values share a key); `text` is how the number is printed.
#[derive(Debug)]
pub struct JsonNumber {
    pub order: u64,
    pub text: String,
}

/// A JSON value. Arrays and objects also carry their compact JSON text, which is what a cell or
/// a message shows for them.
#[derive(Debug)]
pub enum JsonValue {
    Null,
    Bool(bool),
    Number(JsonNumber),
    String(String),
    Array(Vec<JsonValue>, String),
    Object(Vec<(String, JsonValue)>, String),
}

/// A JSON object's entries, in the order the object iterates them.
pub type JsonMap = Vec<(String, JsonValue)>;

/// Whether some entry has this key.
pub open spec fn map_has(entries: Seq<(String, JsonValue)>, key: Seq<char>) -> bool {
    exists|i: int| 0 <= i < entries.len() && (#[trigger] entries[i]).0@ == key
}

/// Whether `i` is the first entry with this key.
pub open spec fn map_first(entries: Seq<(String, JsonValue)>, key: Seq<char>, i: int) -> bool {
    &&& 0 <= i < entries.len()
    &&& entries[i].0@ == key
    &&& forall|j: int| 0 <= j < i ==> (#[trigger] entries[j]).0@ != key
}

/// The value stored under a key: `Map::get`.
pub open spec fn map_get(entries: Seq<(String, JsonValue)>, key: Seq<char>) -> Option<JsonValue> {
    if map_has(entries, key) {
        Some(entries[choose|i: int| map_first(entries, key, i)].1)
    } else {
        None
    }
}

/// The first entry with a key is unique.
pub proof fn lemma_map_first_unique(entries: Seq<(String, JsonValue)>, key: Seq<char>, i: int)
    requires
        map_first(entries, key, i),
    ensures
        map_has(entries, key),
        (choose|k: int| map_first(entries, key, k)) == i,
        map_get(entries, key) == Some(entries[i].1),
{
    assert(map_has(entries, key)) by {
        assert(entries[i].0@ == key);
    }
    let k = choose|k: int| map_first(entries, key, k);
    assert(map_first(entries, key, k));
    if k < i {
        assert(entries[k].0@ != key);
    } else if k > i {
        assert(entries[i].0@ != key);
    }
}

/// Finds the first entry with a key.
pub fn map_find(entries: &Vec<(String, JsonValue)>, key: &str) -> (r: Option<usize>)
    ensures
        r matches Some(i) ==> map_first(entries@, key@, i as int),
        r is None ==> !map_has(entries@, key@),
        r matches Some(i) ==> map_get(entries@, key@) == Some(entries@[i as int].1),
        r is None ==> map_get(entries@, key@) is None,
{
    let mut i: usize = 0;
    while i < entries.len()
        invariant
            i <= entries@.len(),
            forall|j: int| 0 <= j < i ==> (#[trigger] entries@[j]).0@ != key@,
        decreases entries@.len() - i,
    {
        if crate::text::str_eq(entries[i].0.as_str(), key) {
            proof {
                lemma_map_first_unique(entries@, key@, i as int);
            }
            return Some(i);
        }
        i = i + 1;
    }
    None
}

// ------------------------------------------------------------------------------------------
// Writing JSON
// ------------------------------------------------------------------------------------------

/// How `serde_json` writes a string: in quotes, with its escapes.
pub uninterp spec fn json_quoted(text: Seq<char>) -> Seq<char>;

/// `serde_json::to_string` of a string. Its documentation names two ways to fail, a `Serialize`
/// impl that fails and a map with non-string keys; a string is neither, so the empty fallback
/// is never taken.
#[verifier::external_body]
pub(crate) fn quote_json(text: &str) -> (r: String)
    ensures
        r@ == json_quoted(text@),
{
    serde_json::to_string(text).unwrap_or_default()
}

/// How `chrono` writes an instant (microseconds since the Unix epoch) in JSON: RFC 3339 in UTC
/// with a `Z`, with as many fractional digits as the instant needs; nothing for an instant it
/// cannot represent.
pub uninterp spec fn rfc3339_instant(micros: i64) -> Seq<char>;

/// `DateTime::<Utc>::from_timestamp_micros` followed by
/// `to_rfc3339_opts(SecondsFormat::AutoSi, true)`, which is what its `Serialize` impl writes.
#[verifier::external_body]
pub(crate) fn instant_text(micros: i64) -> (r: String)
    ensures
        r@ == rfc3339_instant(micros),
{
    match chrono::DateTime::from_timestamp_micros(micros) {
        Some(instant) => instant.to_rfc3339_opts(chrono::SecondsFormat::AutoSi, true),
        None => String::new(),
    }
}

/// The compact JSON text of a value.
pub open spec fn json_text(v: JsonValue) -> Seq<char> {
    match v {
        JsonValue::Null => "null"@,
        JsonValue::Bool(b) => if b {
            "true"@
        } else {
            "false"@
        },
        JsonValue::Number(n) => n.text@,
        JsonValue::String(text) => json_quoted(text@),
        JsonValue::Array(_, compact) => compact@,
        JsonValue::Object(_, compact) => compact@,
    }
}

/// Writes a value as compact JSON.
pub fn write_json(v: &JsonValue) -> (r: String)
    ensures
        r@ == json_text(*v),
{
    match v {
        JsonValue::Null => owned("null"),
        JsonValue::Bool(b) => if *b {
            owned("true")
        } else {
            owned("false")
        },
        JsonValue::Number(n) => n.text.clone(),
        JsonValue::String(text) => quote_json(text.as_str()),
        JsonValue::Array(_, compact) => compact.clone(),
        JsonValue::Object(_, compact) => compact.clone(),
    }
}

/// Appends one member of an object: its name (already written as JSON) after `lead`, a colon,
/// and its value's JSON text.
pub(crate) fn push_member(out: &mut String, lead: &str, value: &str)
    ensures
        final(out)@ == old(out)@ + lead@ + value@,
{
    push_str(out, lead);
    push_str(out, value);
}

} // verus!
