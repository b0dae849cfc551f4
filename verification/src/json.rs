//! A model of JSON values, with trusted parsing and serialization.
//!
//! The clan `members` column holds a serialized JSON array whose elements
//! reference player identifiers. The rewriting logic works on the model
//! below; the texts at the boundary are produced and consumed by serde_json
//! behind the two trusted wrappers of this module.

use vstd::prelude::*;
use serde_json::Value as SerdeValue;

verus! {

/// A parsed JSON value. Numbers representable as `i64` are held exactly —
/// identifier rewriting touches only those — and any other number is
/// carried as text, in serde_json's own rendering, so it passes through
/// re-serialization unrewritten.
#[derive(Debug, PartialEq)]
pub enum JsonValue {
    Null,
    Bool(bool),
    Int(i64),
    NumText(String),
    Str(String),
    Arr(Vec<JsonValue>),
    Obj(Vec<(String, JsonValue)>),
}

#[verifier::external_type_specification]
#[verifier::external_body]
pub struct ExSerdeValue(serde_json::Value);

/// What parsing a text as JSON yields: a value of the model, or nothing for
/// a text that is not valid JSON. The result depends on the text alone.
pub uninterp spec fn parsed_json(s: Seq<char>) -> Option<JsonValue>;

/// The serialized text of a value of the model. The result depends on the
/// value alone.
pub uninterp spec fn json_text(v: JsonValue) -> Seq<char>;

/// Relies on serde_json::from_str: parses a text as JSON, yielding the model
/// value named by `parsed_json`, or nothing for invalid input.
#[verifier::external_body]
pub fn parse_json(s: &str) -> (r: Option<JsonValue>)
    ensures
        r == parsed_json(s@),
{
    match serde_json::from_str::<serde_json::Value>(s) {
        Ok(v) => Some(from_serde(v)),
        Err(_) => None,
    }
}

/// Relies on serde_json::Value and serde_json::Number: converts a serde_json
/// tree into the model, one variant to one variant; a number representable
/// as `i64` becomes `Int`, any other number keeps its textual form.
#[verifier::external_body]
fn from_serde(v: SerdeValue) -> JsonValue {
    match v {
        SerdeValue::Null => JsonValue::Null,
        SerdeValue::Bool(b) => JsonValue::Bool(b),
        SerdeValue::Number(n) => match n.as_i64() {
            Some(i) => JsonValue::Int(i),
            None => JsonValue::NumText(n.to_string()),
        },
        SerdeValue::String(s) => JsonValue::Str(s),
        SerdeValue::Array(a) => JsonValue::Arr(a.into_iter().map(from_serde).collect()),
        SerdeValue::Object(m) => JsonValue::Obj(
            m.into_iter().map(|p| (p.0, from_serde(p.1))).collect(),
        ),
    }
}

/// Relies on serde_json::Value and serde_json::Number: converts a model
/// value back into a serde_json tree, one variant to one variant; a kept
/// number text is re-read as a JSON number.
#[verifier::external_body]
fn to_serde(v: &JsonValue) -> SerdeValue {
    match v {
        JsonValue::Null => SerdeValue::Null,
        JsonValue::Bool(b) => SerdeValue::Bool(*b),
        JsonValue::Int(i) => SerdeValue::from(*i),
        JsonValue::NumText(s) => match s.as_str().parse::<serde_json::Number>() {
            Ok(n) => SerdeValue::Number(n),
            Err(_) => SerdeValue::String(s.clone()),
        },
        JsonValue::Str(s) => SerdeValue::String(s.clone()),
        JsonValue::Arr(a) => SerdeValue::Array(a.iter().map(to_serde).collect()),
        JsonValue::Obj(f) => SerdeValue::Object(
            f.iter().map(|p| (p.0.clone(), to_serde(&p.1))).collect(),
        ),
    }
}

/// Relies on serde_json::to_string: serializes a model value to the text
/// named by `json_text`.
#[verifier::external_body]
pub fn to_json_string(v: &JsonValue) -> (r: String)
    ensures
        r@ == json_text(*v),
{
    match serde_json::to_string(&to_serde(v)) {
        Ok(s) => s,
        Err(_) => String::new(),
    }
}

} // verus!
