//! JSON values, as request and response bodies are parsed and printed.

use vstd::prelude::*;

verus! {

/// A JSON value. Numbers are held as their JSON text; object entries keep
/// the order in which the parser hands them out.
#[derive(Debug, PartialEq, Eq)]
pub enum JsonValue {
    Null,
    Bool(bool),
    Number(String),
    String(String),
    Array(Vec<JsonValue>),
    Object(Vec<(String, JsonValue)>),
}

#[verifier::external_type_specification]
#[verifier::external_body]
pub struct ExSerdeJsonValue(serde_json::Value);

/// The value that `serde_json::from_slice::<serde_json::Value>` parses from
/// `bytes`, converted to a [`JsonValue`], or `None` where it reports an error.
pub uninterp spec fn spec_parse_json(bytes: Seq<u8>) -> Option<JsonValue>;

/// `serde_json::from_slice::<serde_json::Value>`: parses `bytes` as one JSON
/// document; `None` where `serde_json` reports an error.
#[verifier::external_body]
pub(crate) fn parse_json(bytes: &[u8]) -> (res: Option<JsonValue>)
    ensures
        res == spec_parse_json(bytes@),
{
    serde_json::from_slice::<serde_json::Value>(bytes).ok().map(json_of_serde)
}

/// Converts a `serde_json::Value` to a [`JsonValue`] one variant for one,
/// numbers by their `Display` text and object entries in the map's order.
#[verifier::external_body]
fn json_of_serde(v: serde_json::Value) -> JsonValue {
    match v {
        serde_json::Value::Null => JsonValue::Null,
        serde_json::Value::Bool(b) => JsonValue::Bool(b),
        serde_json::Value::Number(n) => JsonValue::Number(n.to_string()),
        serde_json::Value::String(s) => JsonValue::String(s),
        serde_json::Value::Array(items) => JsonValue::Array(
            items.into_iter().map(json_of_serde).collect(),
        ),
        serde_json::Value::Object(map) => JsonValue::Object(
            map.into_iter().map(|(k, v)| (k, json_of_serde(v))).collect(),
        ),
    }
}

} // verus!
