//! The protobuf messages of the filter and list-option schema, and the error
//! of converting them into filter types.

use crate::filter::Float64;
use crate::{proto_op_val, proto_op_val_bool, proto_op_val_float64, proto_op_val_int32,
    proto_op_val_int64, proto_op_val_json_value, proto_op_val_string, proto_op_val_timestamp,
    proto_op_val_uuid, proto_order_by};
use vstd::prelude::*;

verus! {

/// Errors that can occur when converting proto messages into filter types.
#[derive(Debug)]
pub enum ProtoConversionError {
    /// A required oneof / optional field was absent in the proto message
    /// (or, for UUIDs and timestamps, held an invalid value).
    MissingField(&'static str),
    /// A JSON-encoded value embedded in the proto message could not be parsed.
    InvalidJsonValue(serde_json::Error),
    /// A feature is not enabled.
    UnsupportedFeature(&'static str),
}

impl ProtoConversionError {
    /// The error's message: "missing required proto field: NAME",
    /// "invalid JSON value in proto message: " followed by the JSON error's
    /// message (`json_error_text`), or "feature not enabled: NAME".
    pub fn to_string(&self) -> (r: String)
        ensures
            match self {
                ProtoConversionError::MissingField(name) => r@ == "missing required proto field: "@ + name@,
                ProtoConversionError::InvalidJsonValue(e) => r@ == "invalid JSON value in proto message: "@ + json_error_text(*e),
                ProtoConversionError::UnsupportedFeature(name) => r@ == "feature not enabled: "@ + name@,
            },
    {
        match self {
            ProtoConversionError::MissingField(name) => String::from_str("missing required proto field: ").concat(name),
            ProtoConversionError::InvalidJsonValue(e) => {
                let prefix = String::from_str("invalid JSON value in proto message: ");
                let message = json_error_message(e);
                prefix.concat(message.as_str())
            },
            ProtoConversionError::UnsupportedFeature(name) => String::from_str("feature not enabled: ").concat(name),
        }
    }
}

/// What the `Display` impl of `serde_json::Error` writes for an error: its
/// message, with the line and column where parsing stopped.
pub uninterp spec fn json_error_text(e: serde_json::Error) -> Seq<char>;

/// The message of a JSON parse error.
///
/// Trusted: formats the error with its `Display` impl (`serde_json::Error`);
/// the contract names the text (`json_error_text`), which depends on the
/// error alone.
#[verifier::external_body]
fn json_error_message(e: &serde_json::Error) -> (r: String)
    ensures
        r@ == json_error_text(*e),
{
    format!("{}", e)
}

// -- Helper list wrapper messages (proto3 does not allow `repeated` inside a `oneof`)

#[derive(Debug, Clone, PartialEq)]
pub struct StringList {
    pub values: Vec<String>,
}

#[derive(Debug, Clone, PartialEq)]
pub struct Int64List {
    pub values: Vec<i64>,
}

#[derive(Debug, Clone, PartialEq)]
pub struct Int32List {
    pub values: Vec<i32>,
}

/// Each value is the IEEE-754 bit pattern of a `double`.
#[derive(Debug, Clone, PartialEq)]
pub struct Float64List {
    pub values: Vec<Float64>,
}

/// A point in time as the protobuf well-known type `Timestamp` holds it:
/// seconds since the UNIX epoch, and nanoseconds within the second.
#[derive(Debug, Clone, Copy, PartialEq, Eq, Structural)]
pub struct ProtoTimestamp {
    pub seconds: i64,
    pub nanos: i32,
}

#[derive(Debug, Clone, PartialEq)]
pub struct TimestampList {
    pub values: Vec<ProtoTimestamp>,
}

// -- Filter hierarchy

#[derive(Debug, Clone, PartialEq)]
pub struct ProtoFilterGroups {
    pub groups: Vec<ProtoFilterGroup>,
}

#[derive(Debug, Clone, PartialEq)]
pub struct ProtoFilterGroup {
    pub nodes: Vec<ProtoFilterNode>,
}

#[derive(Debug, Clone, PartialEq)]
pub struct ProtoFilterNode {
    pub name: String,
    pub rel: Option<String>,
    pub opvals: Vec<ProtoOpVal>,
    pub options: Option<ProtoFilterNodeOptions>,
}

#[derive(Debug, Clone, PartialEq)]
pub struct ProtoFilterNodeOptions {
    pub cast_as: Option<String>,
    pub cast_column_as: Option<String>,
}

// -- Operator values

#[derive(Debug, Clone, PartialEq)]
pub struct ProtoOpVal {
    pub value: Option<proto_op_val::Value>,
}

#[derive(Debug, Clone, PartialEq)]
pub struct ProtoOpValString {
    pub op: Option<proto_op_val_string::Op>,
}

#[derive(Debug, Clone, PartialEq)]
pub struct ProtoOpValInt64 {
    pub op: Option<proto_op_val_int64::Op>,
}

#[derive(Debug, Clone, PartialEq)]
pub struct ProtoOpValInt32 {
    pub op: Option<proto_op_val_int32::Op>,
}

#[derive(Debug, Clone, PartialEq)]
pub struct ProtoOpValFloat64 {
    pub op: Option<proto_op_val_float64::Op>,
}

#[derive(Debug, Clone, PartialEq)]
pub struct ProtoOpValBool {
    pub op: Option<proto_op_val_bool::Op>,
}

/// Values are JSON-encoded strings.
#[derive(Debug, Clone, PartialEq)]
pub struct ProtoOpValJsonValue {
    pub op: Option<proto_op_val_json_value::Op>,
}

/// UUIDs are their 16 bytes, encoded in URL-safe base64 without padding.
#[derive(Debug, Clone, PartialEq)]
pub struct ProtoOpValUuid {
    pub op: Option<proto_op_val_uuid::Op>,
}

#[derive(Debug, Clone, PartialEq)]
pub struct ProtoOpValTimestamp {
    pub op: Option<proto_op_val_timestamp::Op>,
}

// -- List options

#[derive(Debug, Clone, PartialEq)]
pub struct ProtoListOptions {
    pub limit: Option<i64>,
    pub offset: Option<i64>,
    pub order_bys: Option<ProtoOrderBys>,
}

#[derive(Debug, Clone, PartialEq)]
pub struct ProtoOrderBys {
    pub order_bys: Vec<ProtoOrderBy>,
}

#[derive(Debug, Clone, PartialEq)]
pub struct ProtoOrderBy {
    pub direction: Option<proto_order_by::Direction>,
}

} // verus!
