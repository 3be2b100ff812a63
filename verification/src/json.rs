//! The JSON engine behind the codec. Reading JSON text and escaping strings
//! is the work of `serde_json`; this module states what the library relies on.

use vstd::prelude::*;
use crate::payload::{Payload, PayloadView};

verus! {

/// `serde_json::Value`, whose inside only `serde_json` knows.
#[verifier::external_type_specification]
#[verifier::external_body]
pub struct ExValue(serde_json::Value);

/// The JSON value that a `serde_json::Value` holds: members of an object in
/// the order in which its map hands them out, a number as an integer where
/// `as_i64` gives one and as the literal that it prints otherwise.
pub uninterp spec fn json_tree(value: serde_json::Value) -> PayloadView;

/// The JSON value that `serde_json::from_slice` reads from `text`, or `None`
/// where it reports an error.
pub uninterp spec fn json_parse(text: Seq<u8>) -> Option<PayloadView>;

/// Calls `serde_json::from_slice` for a `serde_json::Value`. The result is a
/// function of the bytes alone; an error is handed on as its message.
#[verifier::external_body]
pub(crate) fn read_value(text: &[u8]) -> (outcome: Result<serde_json::Value, String>)
    ensures
        match outcome {
            Ok(value) => json_parse(text@) == Some(json_tree(value)),
            Err(_) => json_parse(text@).is_none(),
        },
{
    serde_json::from_slice::<serde_json::Value>(text).map_err(|e| e.to_string())
}

/// Copies a `serde_json::Value` into a [`Payload`], variant by variant.
#[verifier::external_body]
pub(crate) fn payload_of(value: &serde_json::Value) -> (payload: Payload)
    ensures
        payload@ == json_tree(*value),
{
    match value {
        serde_json::Value::Null => Payload::Null,
        serde_json::Value::Bool(flag) => Payload::Bool(*flag),
        serde_json::Value::Number(n) => n.as_i64().map_or_else(|| Payload::Number(n.to_string()), Payload::Integer),
        serde_json::Value::String(text) => Payload::Text(text.clone()),
        serde_json::Value::Array(items) => Payload::List(items.iter().map(payload_of).collect()),
        serde_json::Value::Object(map) => Payload::Object(map.iter().map(|(k, v)| (k.clone(), payload_of(v))).collect()),
    }
}

/// The JSON string literal, quotes included, that `serde_json::to_string`
/// writes for a string, or `None` where it reports an error.
pub uninterp spec fn json_string(text: Seq<char>) -> Option<Seq<u8>>;

/// Calls `serde_json::to_string` on a string. The result is a function of the
/// string alone; an error is handed on as its message.
#[verifier::external_body]
pub(crate) fn quote_string(text: &str) -> (outcome: Result<Vec<u8>, String>)
    ensures
        match outcome {
            Ok(literal) => json_string(text@) == Some(literal@),
            Err(_) => json_string(text@).is_none(),
        },
{
    serde_json::to_string(text).map(String::into_bytes).map_err(|e| e.to_string())
}

/// Reads JSON text into a payload.
pub fn parse_json(text: &[u8]) -> (outcome: Result<Payload, String>)
    ensures
        match outcome {
            Ok(payload) => json_parse(text@) == Some(payload@),
            Err(_) => json_parse(text@).is_none(),
        },
{
    match read_value(text) {
        Ok(value) => Ok(payload_of(&value)),
        Err(message) => Err(message),
    }
}

} // verus!
