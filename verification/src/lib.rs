//! Filter and list-option types for building SQL conditions, their JSON and
//! protobuf (proto3) front ends, and the conversions between them.
//!
//! * [`filter`] holds the filter model: groups of nodes, each node a column
//!   name with operator/value pairs, plus list options (limit, offset,
//!   order-bys), the operator/value types, the JSON operator parsing for UUID
//!   and timestamp values, and the `sea_query` conditions built from them.
//! * The `Proto*` message types mirror the protobuf schema; the
//!   `proto_op_val*` and `proto_order_by` modules hold their `oneof` enums.
//!   Conversions run inbound (proto into filter types), except for
//!   timestamps, which also convert outbound, and UUIDs, whose proto text
//!   `proto_convert::encode_uuid` gives.

pub mod error;
pub mod filter;
pub mod json;
pub mod op_model;
pub mod proto_convert;
pub mod proto_messages;
pub mod proto_op_val;
pub mod proto_op_val_bool;
pub mod proto_op_val_float64;
pub mod proto_op_val_int32;
pub mod proto_op_val_int64;
pub mod proto_op_val_json_value;
pub mod proto_op_val_string;
pub mod proto_op_val_timestamp;
pub mod proto_op_val_uuid;
pub mod proto_order_by;
pub mod sea;
pub mod text;
pub mod time;
pub mod uuid_value;

pub use crate::error::JsonValError;

pub use crate::proto_messages::{
    Float64List, Int32List, Int64List, ProtoConversionError, ProtoFilterGroup, ProtoFilterGroups,
    ProtoFilterNode, ProtoFilterNodeOptions, ProtoListOptions, ProtoOpVal, ProtoOpValBool,
    ProtoOpValFloat64, ProtoOpValInt32, ProtoOpValInt64, ProtoOpValJsonValue, ProtoOpValString,
    ProtoOpValTimestamp, ProtoOpValUuid, ProtoOrderBy, ProtoOrderBys, ProtoTimestamp, StringList,
    TimestampList,
};
