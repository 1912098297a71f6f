//! The boundary to the JSON library and to the standard library's UTF-8
//! decoder: the only code of the crate that is taken on trust.

use crate::json::{Json, JsonValue, Member};
use serde_json::Value;
use vstd::prelude::*;
use vstd::utf8::{decode_utf8, valid_utf8};

verus! {

#[verifier::external_type_specification]
#[verifier::external_body]
pub struct ExValue(serde_json::Value);

/// The text that lossy UTF-8 decoding makes of a byte string.
pub uninterp spec fn utf8_lossy(bytes: Seq<u8>) -> Seq<char>;

/// What the JSON parser makes of a text: the document that the text holds,
/// or the parser's message where it holds none.
pub uninterp spec fn json_parse(text: Seq<char>) -> Result<JsonValue, Seq<char>>;

/// The compact JSON text of a document.
pub uninterp spec fn json_text(doc: JsonValue) -> Seq<char>;

/// Calls `String::from_utf8_lossy`. Trusted: the result is a function of the
/// bytes alone, and valid UTF-8 is decoded as it stands.
#[verifier::external_body]
pub(crate) fn decode_lossy(bytes: &[u8]) -> (text: String)
    ensures
        text@ == utf8_lossy(bytes@),
        valid_utf8(bytes@) ==> text@ == decode_utf8(bytes@),
{
    String::from_utf8_lossy(bytes).into_owned()
}

/// Copies a `serde_json::Value` into a `Json`, node for node, with each
/// number as `serde_json::Number` prints it. Nothing is claimed of it here:
/// `parse_json` names what comes out.
#[verifier::external_body]
fn json_from_value(value: &Value) -> Json {
    match value {
        Value::Null => Json::Null,
        Value::Bool(b) => Json::Bool(*b),
        Value::Number(n) => Json::Number(n.to_string()),
        Value::String(s) => Json::Str(s.clone()),
        Value::Array(a) => Json::Array(a.iter().map(json_from_value).collect()),
        Value::Object(m) => Json::Object(
            m.iter().map(|(k, v)| Member { key: k.clone(), value: json_from_value(v) }).collect(),
        ),
    }
}

/// Copies a `Json` into a `serde_json::Value`, node for node. A number goes
/// through `serde_json::Number`'s `from_str`; a text that it does not take
/// becomes `null`. Nothing is claimed of it here: `json_to_text` names what
/// comes out.
#[verifier::external_body]
fn value_from_json(doc: &Json) -> Value {
    match doc {
        Json::Null => Value::Null,
        Json::Bool(b) => Value::Bool(*b),
        Json::Number(n) => n.parse::<serde_json::Number>().map_or(Value::Null, Value::Number),
        Json::Str(s) => Value::String(s.clone()),
        Json::Array(a) => Value::Array(a.iter().map(value_from_json).collect()),
        Json::Object(m) => Value::Object(
            m.iter().map(|e| (e.key.clone(), value_from_json(&e.value))).collect(),
        ),
    }
}

/// Calls `serde_json::from_str` for a `serde_json::Value`. Trusted: the
/// outcome, the document or the error's message, is a function of the text
/// alone.
#[verifier::external_body]
pub(crate) fn parse_json(text: &str) -> (parsed: Result<Json, String>)
    ensures
        match parsed {
            Ok(doc) => json_parse(text@) == Ok::<JsonValue, Seq<char>>(doc@),
            Err(message) => json_parse(text@) == Err::<JsonValue, Seq<char>>(message@),
        },
{
    match serde_json::from_str::<Value>(text) {
        Ok(value) => Ok(json_from_value(&value)),
        Err(error) => Err(error.to_string()),
    }
}

/// Calls `serde_json::to_string` on the document as a `serde_json::Value`.
/// Trusted: the text is a function of the document's value alone.
#[verifier::external_body]
pub(crate) fn json_to_text(doc: &Json) -> (text: String)
    ensures
        text@ == json_text(doc@),
{
    serde_json::to_string(&value_from_json(doc)).unwrap_or_default()
}

} // verus!
