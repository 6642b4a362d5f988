//! Errors of the JSON filter front end.

use crate::json::JsonValue;
use vstd::prelude::*;

verus! {

/// Errors raised while turning a JSON operator/value pair into an operator value.
#[derive(Debug)]
pub enum JsonValError {
    /// A list operator (`$in`, `$notIn`) was given something other than an array.
    JsonValArrayWrongType { actual_value: JsonValue },
    /// A value, or an item of a list, is not of the expected type (named here).
    JsonValNotOfType(&'static str),
    /// The operator is unknown for this type, or its value has the wrong shape.
    JsonOpValNotSupported { operator: String, value: JsonValue },
}

/// `r` is the error for an operator that is unknown, or whose value has the
/// wrong shape: it names the operator `op` and carries the value back.
pub open spec fn is_not_supported<T>(r: Result<T, JsonValError>, op: Seq<char>, value: JsonValue) -> bool {
    &&& r matches Err(JsonValError::JsonOpValNotSupported { operator, value: v })
    &&& r->Err_0->operator@ == op
    &&& r->Err_0->value == value
}

/// The error for an operator that is unknown, or whose value has the wrong shape.
pub fn not_supported<T>(op: &str, value: JsonValue) -> (r: Result<T, JsonValError>)
    ensures
        is_not_supported(r, op@, value),
{
    Err(JsonValError::JsonOpValNotSupported { operator: op.to_owned(), value })
}

} // verus!
