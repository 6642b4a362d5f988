# modql

Filter and list-option types for building SQL conditions, with their
protobuf (proto3) messages and JSON operator syntax, verified with Verus.

## Layout

- `src/` — the verified library.
  - `filter.rs`, `filter/` — filter groups and nodes, operator values per
    value type, list options; JSON operator parsing for UUID and timestamp
    values and the `sea_query` conditions built from them.
  - `proto_messages.rs`, `proto_op_val*.rs`, `proto_order_by.rs` — the
    protobuf messages as plain Rust types.
  - `proto_convert.rs` — conversions from messages into filter types (and of
    timestamp operator values back into messages), with their contracts and
    laws.
  - `op_model.rs`, `json.rs`, `time.rs`, `uuid_value.rs`, `text.rs`,
    `sea.rs`, `error.rs` — models, errors, and the trusted calls into
    `chrono`, `uuid`, `data-encoding`, `serde_json` and `sea-query`.
- `tests/` — tests run against the compiled library.
- `app/` — the unverified edges: prost encodings of the messages, serde
  deserialisation of JSON filters, `Display` for errors.

## Conversions

Inbound conversions (`FilterGroups::try_from`, `OpVal::try_from`, ...)
return `ProtoConversionError::MissingField` when a `oneof` is absent or a
UUID / timestamp is invalid, and `InvalidJsonValue` when a JSON-encoded
value does not parse. Each conversion's contract gives its exact result.
