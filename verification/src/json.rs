//! Reading JSON text.

use vstd::prelude::*;

verus! {

/// What stands at one place of a JSON text.
#[derive(Debug, PartialEq, Eq)]
pub enum JsonPart {
    /// The text is not JSON, or the place does not exist.
    Missing,
    Null,
    Bool(bool),
    /// A number: what it is as a signed and as an unsigned integer, where it is one.
    Number { signed: Option<i64>, unsigned: Option<u64> },
    Text(String),
    Array,
    Object { is_empty: bool },
}

/// A part of a JSON text, with its characters.
pub enum JsonPartView {
    Missing,
    Null,
    Bool(bool),
    Number { signed: Option<i64>, unsigned: Option<u64> },
    Text(Seq<char>),
    Array,
    Object { is_empty: bool },
}

impl View for JsonPart {
    type V = JsonPartView;

    open spec fn view(&self) -> JsonPartView {
        match self {
            JsonPart::Missing => JsonPartView::Missing,
            JsonPart::Null => JsonPartView::Null,
            JsonPart::Bool(b) => JsonPartView::Bool(*b),
            JsonPart::Number { signed, unsigned } => JsonPartView::Number {
                signed: *signed,
                unsigned: *unsigned,
            },
            JsonPart::Text(s) => JsonPartView::Text(s@),
            JsonPart::Array => JsonPartView::Array,
            JsonPart::Object { is_empty } => JsonPartView::Object { is_empty: *is_empty },
        }
    }
}

/// What `serde_json::Value::pointer` finds in the value that `serde_json::from_str` reads from a
/// text.
pub uninterp spec fn json_at(text: Seq<char>, pointer: Seq<char>) -> JsonPartView;

/// `serde_json::from_str` reads the text as a value, and `Value::pointer` looks up the place that
/// the JSON Pointer names. The result is a function of the two texts; an object or an array is
/// reported without its members, an object with whether it has any.
#[verifier::external_body]
pub(crate) fn part_at(text: &str, pointer: &str) -> (result: JsonPart)
    ensures
        result@ == json_at(text@, pointer@),
{
    let value: Option<serde_json::Value> = serde_json::from_str(text).ok();
    match value.as_ref().and_then(|value| value.pointer(pointer)) {
        None => JsonPart::Missing,
        Some(serde_json::Value::Null) => JsonPart::Null,
        Some(serde_json::Value::Bool(b)) => JsonPart::Bool(*b),
        Some(serde_json::Value::Number(n)) => JsonPart::Number { signed: n.as_i64(), unsigned: n.as_u64() },
        Some(serde_json::Value::String(s)) => JsonPart::Text(s.clone()),
        Some(serde_json::Value::Array(_)) => JsonPart::Array,
        Some(serde_json::Value::Object(map)) => JsonPart::Object { is_empty: map.is_empty() },
    }
}

/// What `serde_json::to_string_pretty` writes of the part of a JSON text that
/// `serde_json::Value::pointer` finds, if it finds one.
pub uninterp spec fn json_pretty(text: Seq<char>, pointer: Seq<char>) -> Option<Seq<char>>;

/// `serde_json::from_str` reads the text as a value, `Value::pointer` looks up the place that the
/// JSON Pointer names, and `serde_json::to_string_pretty` writes what stands there over several
/// lines. The result is a function of the two texts. There is one exactly where there is something
/// at that place: a value that was read can be written.
#[verifier::external_body]
pub(crate) fn pretty_at(text: &str, pointer: &str) -> (result: Option<String>)
    ensures
        match result {
            Some(s) => json_pretty(text@, pointer@) == Some(s@),
            None => json_pretty(text@, pointer@) is None,
        },
        result is Some == !(json_at(text@, pointer@) is Missing),
{
    let value: serde_json::Value = serde_json::from_str(text).ok()?;
    serde_json::to_string_pretty(value.pointer(pointer)?).ok()
}

/// The string that stands at a place.
pub open spec fn string_in(part: JsonPartView) -> Option<Seq<char>> {
    match part {
        JsonPartView::Text(s) => Some(s),
        _ => None,
    }
}

/// The string that stands at a place.
pub fn string_at(text: &str, pointer: &str) -> (result: Option<String>)
    ensures
        match result {
            Some(s) => string_in(json_at(text@, pointer@)) == Some(s@),
            None => string_in(json_at(text@, pointer@)) is None,
        },
{
    match part_at(text, pointer) {
        JsonPart::Text(s) => Some(s),
        _ => None,
    }
}

} // verus!
