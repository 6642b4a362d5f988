//! The `oneof` of [`crate::ProtoOpVal`]: which kind of operator value it holds.

use crate::{ProtoOpValBool, ProtoOpValFloat64, ProtoOpValInt32, ProtoOpValInt64,
    ProtoOpValJsonValue, ProtoOpValString, ProtoOpValTimestamp, ProtoOpValUuid};
use vstd::prelude::*;

verus! {

#[derive(Debug, Clone, PartialEq)]
pub enum Value {
    String(ProtoOpValString),
    Int64(ProtoOpValInt64),
    Int32(ProtoOpValInt32),
    Float64(ProtoOpValFloat64),
    Bool(ProtoOpValBool),
    JsonValue(ProtoOpValJsonValue),
    Uuid(ProtoOpValUuid),
    Timestamp(ProtoOpValTimestamp),
}

} // verus!
