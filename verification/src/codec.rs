//! JSON text, read and written by `serde_json`.
//!
//! What the parser makes of a byte string and what the serializer writes for
//! a value are not restated here: each is given a name, and the contracts of
//! this library speak of those names.

use serde_json::{Number, Value};
use vstd::prelude::*;
use crate::json::{Json, JsonValue};

verus! {

/// `serde_json::Value`, as a type whose inside the verifier does not see.
#[verifier::external_type_specification]
#[verifier::external_body]
pub struct ExValue(Value);

/// What `serde_json` makes of `bytes` read as one JSON text: the value, or
/// the text of its error.
pub uninterp spec fn json_parsed(bytes: Seq<u8>) -> Result<JsonValue, Seq<char>>;

/// The compact JSON text that `serde_json` writes for `value`.
pub uninterp spec fn json_text(value: JsonValue) -> Seq<char>;

/// The model of the outcome of parsing.
pub open spec fn view_parsed(outcome: Result<Json, String>) -> Result<JsonValue, Seq<char>> {
    match outcome {
        Ok(json) => Ok(json@),
        Err(reason) => Err(reason@),
    }
}

/// Changes a `serde_json::Value` into a [`Json`], variant by variant. A
/// number that `Number::as_i64` gives back becomes an integer, any other its
/// `Display` text. Nothing is claimed of the result.
#[verifier::external_body]
fn from_serde(value: Value) -> Json {
    match value {
        Value::Null => Json::Null,
        Value::Bool(b) => Json::Bool(b),
        Value::Number(n) => match n.as_i64() {
            Some(i) => Json::Integer(i),
            None => Json::Decimal(n.to_string()),
        },
        Value::String(s) => Json::Text(s),
        Value::Array(a) => Json::Array(a.into_iter().map(from_serde).collect()),
        Value::Object(m) => Json::Object(m.into_iter().map(|(k, v)| (k, from_serde(v))).collect()),
    }
}

/// Changes a [`Json`] into a `serde_json::Value`, variant by variant. Decimal
/// text that `serde_json` does not read as a number becomes null; of members
/// with one name the last stays. Nothing is claimed of the result.
#[verifier::external_body]
fn to_serde(json: &Json) -> Value {
    match json {
        Json::Null => Value::Null,
        Json::Bool(b) => Value::Bool(*b),
        Json::Integer(i) => Value::from(*i),
        Json::Decimal(t) => serde_json::from_str::<Number>(t).map_or(Value::Null, Value::Number),
        Json::Text(s) => Value::String(s.clone()),
        Json::Array(a) => Value::Array(a.iter().map(to_serde).collect()),
        Json::Object(m) => Value::Object(m.iter().map(|(k, v)| (k.clone(), to_serde(v))).collect()),
    }
}

/// Calls `serde_json::from_slice` for a `Value`. The contract only names the
/// outcome: the same bytes give the same value or the same error text.
#[verifier::external_body]
fn read_json(bytes: &[u8]) -> (outcome: Result<Json, String>)
    ensures
        view_parsed(outcome) == json_parsed(bytes@),
{
    match serde_json::from_slice::<Value>(bytes) {
        Ok(value) => Ok(from_serde(value)),
        Err(error) => Err(error.to_string()),
    }
}

/// Calls `serde_json::to_string` on the `Value` made of `json`, which does
/// not fail for a `Value`. The contract only names the text.
#[verifier::external_body]
fn write_json(json: &Json) -> (text: String)
    ensures
        text@ == json_text(json@),
{
    serde_json::to_string(&to_serde(json)).unwrap_or_default()
}

impl Json {
    /// Reads one JSON text.
    pub fn parse(bytes: &[u8]) -> (outcome: Result<Json, String>)
        ensures
            view_parsed(outcome) == json_parsed(bytes@),
    {
        read_json(bytes)
    }

    /// Writes the value as compact JSON text.
    pub fn to_text(&self) -> (text: String)
        ensures
            text@ == json_text(self@),
    {
        write_json(self)
    }
}

} // verus!
