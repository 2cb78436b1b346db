//! A plain-value model of a JSON document, and the bridge that obtains one
//! from JSON text through `serde_json`.
//!
//! The decoder inspects only the shape of values (string, array, object) and
//! the strings inside them, so the model keeps exactly that: a number's value
//! is never read by this library and is not retained.

use vstd::prelude::*;

verus! {

/// One JSON value, as plain values: the shape of the document and the strings
/// within it, which is all the compilation-database decoder reads.
#[derive(Debug)]
pub enum JsonValue {
    Null,
    Bool(bool),
    Number,
    Str(String),
    Array(Vec<JsonValue>),
    Object(Vec<(String, JsonValue)>),
}

#[verifier::external_type_specification]
#[verifier::external_body]
pub struct ExSerdeJsonValue(serde_json::Value);

/// What parsing JSON text yields: `None` when the text is not JSON, otherwise
/// the parsed value. Parsing is a function of the text alone.
pub uninterp spec fn spec_parse_json(s: Seq<char>) -> Option<JsonValue>;

/// Converts `serde_json`'s value tree into the library's model, variant by
/// variant. Relies on `serde_json::Value`: each arm moves the corresponding
/// payload; a number's value is not retained, and object members are handed
/// out by `serde_json::Map::into_iter` in its key order.
#[verifier::external_body]
fn json_of_value(v: serde_json::Value) -> JsonValue {
    match v {
        serde_json::Value::Null => JsonValue::Null,
        serde_json::Value::Bool(b) => JsonValue::Bool(b),
        serde_json::Value::Number(_) => JsonValue::Number,
        serde_json::Value::String(s) => JsonValue::Str(s),
        serde_json::Value::Array(a) => JsonValue::Array(
            a.into_iter().map(json_of_value).collect(),
        ),
        serde_json::Value::Object(m) => JsonValue::Object(
            m.into_iter().map(|(k, w)| (k, json_of_value(w))).collect(),
        ),
    }
}

/// Parses JSON text into the library's value model.
/// Relies on `serde_json::from_str`: it returns `Ok` exactly when the text is
/// a JSON document, and its result depends on the text alone.
#[verifier::external_body]
pub(crate) fn parse_json(s: &str) -> (r: Option<JsonValue>)
    ensures
        r == spec_parse_json(s@),
{
    match serde_json::from_str::<serde_json::Value>(s) {
        Result::Ok(v) => Option::Some(json_of_value(v)),
        Result::Err(_) => Option::None,
    }
}

} // verus!
