//! A JSON document as plain values.

use serde_json::Value as SerdeJsonValue;
use vstd::prelude::*;

verus! {

/// A JSON value, as read from a JSON filter.
///
/// Numbers keep their decimal text, so no precision is lost when a value is
/// carried back in an error.
#[derive(Debug, PartialEq)]
pub enum JsonValue {
    Null,
    Bool(bool),
    Number(String),
    String(String),
    Array(Vec<JsonValue>),
    Object(Vec<(String, JsonValue)>),
}

#[verifier::external_type_specification]
#[verifier::external_body]
pub struct ExSerdeJsonValue(SerdeJsonValue);

#[verifier::external_type_specification]
#[verifier::external_body]
pub struct ExSerdeJsonError(serde_json::Error);

/// What `serde_json::from_str::<serde_json::Value>` gives for a text: the
/// parsed value, or the error that describes why the text is not JSON.
pub uninterp spec fn json_text_parsed(s: Seq<char>) -> Result<serde_json::Value, serde_json::Error>;

/// Parses a JSON text.
///
/// Trusted: calls `serde_json::from_str::<serde_json::Value>`; the contract
/// only names its result (`json_text_parsed`), which depends on the text
/// alone.
#[verifier::external_body]
pub(crate) fn json_from_str(s: &str) -> (r: Result<serde_json::Value, serde_json::Error>)
    ensures
        r == json_text_parsed(s@),
{
    serde_json::from_str::<serde_json::Value>(s)
}

} // verus!
