use modql::filter::{
    FilterGroups, Float64, ListOptions, OpVal, OpValBool, OpValInt64, OpValString,
    OpValTimestamp, OpValUuid, OpValValue, OrderBy,
};
use modql::proto_convert::{encode_uuid, parse_uuid};
use modql::time::{UtcDateTime, MAX_UTC_TIMESTAMP, MIN_UTC_TIMESTAMP};
use modql::uuid_value::Uuid;
use modql::{
    proto_op_val, proto_op_val_bool, proto_op_val_float64, proto_op_val_int64,
    proto_op_val_json_value, proto_op_val_string, proto_op_val_timestamp, proto_op_val_uuid,
    proto_order_by, Int64List, ProtoConversionError, ProtoFilterGroup, ProtoFilterGroups,
    ProtoFilterNode, ProtoFilterNodeOptions, ProtoListOptions, ProtoOpVal, ProtoOpValBool,
    ProtoOpValFloat64, ProtoOpValInt64, ProtoOpValJsonValue, ProtoOpValString,
    ProtoOpValTimestamp, ProtoOpValUuid, ProtoOrderBy, ProtoOrderBys, ProtoTimestamp, StringList,
    TimestampList,
};

fn node(name: &str, rel: Option<&str>, opvals: Vec<ProtoOpVal>) -> ProtoFilterNode {
    ProtoFilterNode { name: name.to_string(), rel: rel.map(|r| r.to_string()), opvals, options: None }
}

fn groups_of(nodes: Vec<ProtoFilterNode>) -> ProtoFilterGroups {
    ProtoFilterGroups { groups: vec![ProtoFilterGroup { nodes }] }
}

fn first_opval(fg: FilterGroups) -> OpVal {
    fg.into_vec().into_iter().next().unwrap().into_vec().into_iter().next().unwrap().opvals.into_iter().next().unwrap()
}

fn ts_opval(op: proto_op_val_timestamp::Op) -> ProtoOpVal {
    ProtoOpVal { value: Some(proto_op_val::Value::Timestamp(ProtoOpValTimestamp { op: Some(op) })) }
}

fn uuid_opval(op: proto_op_val_uuid::Op) -> ProtoOpVal {
    ProtoOpVal { value: Some(proto_op_val::Value::Uuid(ProtoOpValUuid { op: Some(op) })) }
}

#[test]
fn test_convert_filter_groups_mixed() {
    let proto = ProtoFilterGroups {
        groups: vec![
            ProtoFilterGroup {
                nodes: vec![
                    node("title", None, vec![ProtoOpVal {
                        value: Some(proto_op_val::Value::String(ProtoOpValString {
                            op: Some(proto_op_val_string::Op::Contains("hello".into())),
                        })),
                    }]),
                    node("price", None, vec![ProtoOpVal {
                        value: Some(proto_op_val::Value::Float64(ProtoOpValFloat64 {
                            op: Some(proto_op_val_float64::Op::Gt(Float64(0.0f64.to_bits()))),
                        })),
                    }]),
                ],
            },
            ProtoFilterGroup {
                nodes: vec![ProtoFilterNode {
                    name: "id".into(),
                    rel: Some("item".into()),
                    opvals: vec![ProtoOpVal {
                        value: Some(proto_op_val::Value::Int64(ProtoOpValInt64 {
                            op: Some(proto_op_val_int64::Op::In(Int64List { values: vec![1, 2, 3] })),
                        })),
                    }],
                    options: Some(ProtoFilterNodeOptions { cast_as: Some("bigint".into()), cast_column_as: None }),
                }],
            },
        ],
    };
    let groups = FilterGroups::try_from(proto).unwrap().into_vec();
    assert_eq!(groups.len(), 2);
    assert_eq!(groups[0].nodes().len(), 2);
    assert_eq!(groups[0].nodes()[0].name, "title");
    assert!(matches!(&groups[0].nodes()[0].opvals[0], OpVal::String(OpValString::Contains(s)) if s == "hello"));
    assert_eq!(groups[1].nodes().len(), 1);
    let id_node = &groups[1].nodes()[0];
    assert_eq!(id_node.rel.as_deref(), Some("item"));
    assert_eq!(id_node.options.cast_as.as_deref(), Some("bigint"));
    assert_eq!(id_node.options.cast_column_as, None);
    assert!(matches!(&id_node.opvals[0], OpVal::Int64(OpValInt64::In(v)) if *v == vec![1i64, 2, 3]));
}

#[test]
fn test_convert_list_options_full() {
    let proto = ProtoListOptions {
        limit: Some(10),
        offset: Some(20),
        order_bys: Some(ProtoOrderBys {
            order_bys: vec![
                ProtoOrderBy { direction: Some(proto_order_by::Direction::Asc("name".into())) },
                ProtoOrderBy { direction: Some(proto_order_by::Direction::Desc("updated_at".into())) },
                ProtoOrderBy { direction: None },
            ],
        }),
    };
    let lo = ListOptions::from(proto);
    assert_eq!(lo.limit, Some(10));
    assert_eq!(lo.offset, Some(20));
    let order_bys = lo.order_bys.unwrap().into_vec();
    assert_eq!(
        order_bys,
        vec![OrderBy::Asc("name".into()), OrderBy::Desc("updated_at".into()), OrderBy::Asc(String::new())]
    );
}

#[test]
fn test_convert_all_bool_ops() {
    for (op, expected) in [
        (proto_op_val_bool::Op::Eq(true), OpValBool::Eq(true)),
        (proto_op_val_bool::Op::Not(false), OpValBool::Not(false)),
        (proto_op_val_bool::Op::Null(true), OpValBool::Null(true)),
    ] {
        let p = groups_of(vec![node("active", None, vec![ProtoOpVal {
            value: Some(proto_op_val::Value::Bool(ProtoOpValBool { op: Some(op) })),
        }])]);
        assert_eq!(first_opval(FilterGroups::try_from(p).unwrap()), OpVal::Bool(expected));
    }
}

#[test]
fn test_convert_json_value_object() {
    let json_str = r#"{"key":"value","num":123}"#;
    let p = groups_of(vec![node("payload", None, vec![ProtoOpVal {
        value: Some(proto_op_val::Value::JsonValue(ProtoOpValJsonValue {
            op: Some(proto_op_val_json_value::Op::Eq(json_str.into())),
        })),
    }])]);
    let OpVal::Value(OpValValue::Eq(val)) = first_opval(FilterGroups::try_from(p).unwrap()) else {
        panic!("expected OpVal::Value(OpValValue::Eq(..))");
    };
    assert_eq!(val["key"], serde_json::Value::from("value"));
    assert_eq!(val["num"], serde_json::Value::from(123));
}

#[test]
fn test_json_value_list_first_invalid_item_fails() {
    let proto = ProtoOpValJsonValue {
        op: Some(proto_op_val_json_value::Op::NotIn(StringList {
            values: vec!["1".into(), "{oops".into(), "true".into()],
        })),
    };
    assert!(matches!(OpValValue::try_from(proto), Err(ProtoConversionError::InvalidJsonValue(_))));
}

#[test]
fn test_first_failing_opval_gives_the_error() {
    let p = groups_of(vec![
        node("a", None, vec![ProtoOpVal {
            value: Some(proto_op_val::Value::Bool(ProtoOpValBool { op: Some(proto_op_val_bool::Op::Eq(true)) })),
        }]),
        node("b", None, vec![ProtoOpVal { value: None }]),
        node("c", None, vec![ProtoOpVal {
            value: Some(proto_op_val::Value::Int64(ProtoOpValInt64 { op: None })),
        }]),
    ]);
    assert!(matches!(FilterGroups::try_from(p), Err(ProtoConversionError::MissingField("OpVal.value"))));
}

#[test]
fn test_missing_int64_op_inside_groups() {
    let p = groups_of(vec![node("c", None, vec![ProtoOpVal {
        value: Some(proto_op_val::Value::Int64(ProtoOpValInt64 { op: None })),
    }])]);
    assert!(matches!(FilterGroups::try_from(p), Err(ProtoConversionError::MissingField("OpValInt64.op"))));
}

#[test]
fn test_convert_timestamp_ops() {
    let ts = ProtoTimestamp { seconds: 1_700_000_000, nanos: 123_456_789 };
    let p = groups_of(vec![node("created_at", None, vec![ts_opval(proto_op_val_timestamp::Op::Eq(ts))])]);
    let opval = first_opval(FilterGroups::try_from(p).unwrap());
    let expected = UtcDateTime::from_timestamp(1_700_000_000, 123_456_789).unwrap();
    assert_eq!(opval, OpVal::Timestamp(OpValTimestamp::Eq(expected)));
}

#[test]
fn test_timestamp_negative_nanos_is_invalid() {
    let p = ProtoOpValTimestamp {
        op: Some(proto_op_val_timestamp::Op::Lt(ProtoTimestamp { seconds: 0, nanos: -1 })),
    };
    assert!(matches!(OpValTimestamp::try_from(p), Err(ProtoConversionError::MissingField("Invalid Timestamp"))));
}

#[test]
fn test_timestamp_leap_second_only_at_end_of_minute() {
    let ok = ProtoOpValTimestamp {
        op: Some(proto_op_val_timestamp::Op::Gt(ProtoTimestamp { seconds: 59, nanos: 1_500_000_000 })),
    };
    let r = OpValTimestamp::try_from(ok).unwrap();
    assert_eq!(r, OpValTimestamp::Gt(UtcDateTime::from_timestamp(59, 1_500_000_000).unwrap()));
    let bad = ProtoOpValTimestamp {
        op: Some(proto_op_val_timestamp::Op::Gt(ProtoTimestamp { seconds: 58, nanos: 1_500_000_000 })),
    };
    assert!(OpValTimestamp::try_from(bad).is_err());
    let too_many = ProtoOpValTimestamp {
        op: Some(proto_op_val_timestamp::Op::Gt(ProtoTimestamp { seconds: 59, nanos: 2_000_000_000 })),
    };
    assert!(OpValTimestamp::try_from(too_many).is_err());
}

#[test]
fn test_timestamp_range_bounds() {
    assert!(UtcDateTime::from_timestamp(MIN_UTC_TIMESTAMP, 0).is_some());
    assert!(UtcDateTime::from_timestamp(MIN_UTC_TIMESTAMP - 1, 999_999_999).is_none());
    assert!(UtcDateTime::from_timestamp(MAX_UTC_TIMESTAMP, 999_999_999).is_some());
    assert!(UtcDateTime::from_timestamp(MAX_UTC_TIMESTAMP + 1, 0).is_none());
    assert_eq!(chrono::DateTime::from_timestamp(MIN_UTC_TIMESTAMP, 0), Some(chrono::DateTime::<chrono::Utc>::MIN_UTC));
    assert_eq!(
        chrono::DateTime::from_timestamp(MAX_UTC_TIMESTAMP, 999_999_999),
        Some(chrono::DateTime::<chrono::Utc>::MAX_UTC)
    );
}

#[test]
fn test_timestamp_in_list_and_null() {
    let p = ProtoOpValTimestamp {
        op: Some(proto_op_val_timestamp::Op::NotIn(TimestampList {
            values: vec![ProtoTimestamp { seconds: 1, nanos: 0 }, ProtoTimestamp { seconds: 2, nanos: 5 }],
        })),
    };
    let expected = vec![UtcDateTime::from_timestamp(1, 0).unwrap(), UtcDateTime::from_timestamp(2, 5).unwrap()];
    assert_eq!(OpValTimestamp::try_from(p).unwrap(), OpValTimestamp::NotIn(expected));
    let p = ProtoOpValTimestamp { op: Some(proto_op_val_timestamp::Op::Null(false)) };
    assert_eq!(OpValTimestamp::try_from(p).unwrap(), OpValTimestamp::Null(false));
    let p = ProtoOpValTimestamp { op: None };
    assert!(matches!(OpValTimestamp::try_from(p), Err(ProtoConversionError::MissingField("OpValTimestamp.op"))));
}

#[test]
fn test_timestamp_proto_roundtrip() {
    let d1 = UtcDateTime::from_timestamp(1_700_000_000, 42).unwrap();
    let d2 = UtcDateTime::from_timestamp(-86_400, 999_999_999).unwrap();
    let values = [
        OpValTimestamp::Eq(d1),
        OpValTimestamp::Not(d2),
        OpValTimestamp::In(vec![d1, d2]),
        OpValTimestamp::NotIn(vec![]),
        OpValTimestamp::Lt(d1),
        OpValTimestamp::Lte(d2),
        OpValTimestamp::Gt(d1),
        OpValTimestamp::Gte(d2),
        OpValTimestamp::Null(true),
    ];
    for v in values {
        let proto = ProtoOpValTimestamp::from(v.clone());
        assert_eq!(OpValTimestamp::try_from(proto).unwrap(), v);
    }
    let proto = ProtoOpValTimestamp::from(OpValTimestamp::Eq(d1));
    assert_eq!(
        proto.op,
        Some(proto_op_val_timestamp::Op::Eq(ProtoTimestamp { seconds: 1_700_000_000, nanos: 42 }))
    );
}

#[test]
fn test_parse_uuid_base64url() {
    assert_eq!(parse_uuid("AAAAAAAAAAAAAAAAAAAAAA").unwrap(), Uuid(0));
    let u = uuid::Uuid::parse_str("67e55044-10b1-426f-9247-bb680e5fe0c8").unwrap();
    let encoded = data_encoding::BASE64URL_NOPAD.encode(u.as_bytes());
    assert_eq!(parse_uuid(&encoded).unwrap(), Uuid(u.as_u128()));
    assert!(matches!(parse_uuid("AAAA"), Err(ProtoConversionError::MissingField("Invalid UUID"))));
    assert!(matches!(parse_uuid("not base64!"), Err(ProtoConversionError::MissingField("Invalid UUID"))));
    assert!(matches!(parse_uuid("AAAAAAAAAAAAAAAAAAAAAA=="), Err(ProtoConversionError::MissingField("Invalid UUID"))));
}

#[test]
fn test_convert_uuid_ops() {
    let u = uuid::Uuid::parse_str("67e55044-10b1-426f-9247-bb680e5fe0c8").unwrap();
    let encoded = data_encoding::BASE64URL_NOPAD.encode(u.as_bytes());
    let p = groups_of(vec![node("id", None, vec![uuid_opval(proto_op_val_uuid::Op::In(StringList {
        values: vec![encoded.clone(), "AAAAAAAAAAAAAAAAAAAAAA".into()],
    }))])]);
    assert_eq!(
        first_opval(FilterGroups::try_from(p).unwrap()),
        OpVal::Uuid(OpValUuid::In(vec![Uuid(u.as_u128()), Uuid(0)]))
    );
    let p = ProtoOpValUuid { op: Some(proto_op_val_uuid::Op::Gte(encoded)) };
    assert_eq!(OpValUuid::try_from(p).unwrap(), OpValUuid::Gte(Uuid(u.as_u128())));
    let p = ProtoOpValUuid {
        op: Some(proto_op_val_uuid::Op::NotIn(StringList { values: vec!["AAAAAAAAAAAAAAAAAAAAAA".into(), "AAAA".into()] })),
    };
    assert!(matches!(OpValUuid::try_from(p), Err(ProtoConversionError::MissingField("Invalid UUID"))));
    let p = ProtoOpValUuid { op: None };
    assert!(matches!(OpValUuid::try_from(p), Err(ProtoConversionError::MissingField("OpValUuid.op"))));
}

#[test]
fn test_conversion_error_messages() {
    assert_eq!(
        ProtoConversionError::MissingField("OpVal.value").to_string(),
        "missing required proto field: OpVal.value"
    );
    assert_eq!(ProtoConversionError::UnsupportedFeature("uuid").to_string(), "feature not enabled: uuid");
    let err = OpValValue::try_from(ProtoOpValJsonValue {
        op: Some(proto_op_val_json_value::Op::Eq("{{".into())),
    })
    .unwrap_err();
    let msg = err.to_string();
    assert!(msg.starts_with("invalid JSON value in proto message: "));
    assert!(msg.len() > "invalid JSON value in proto message: ".len());
}

#[test]
fn test_from_impls() {
    let u = Uuid(7);
    assert_eq!(OpValUuid::from(u), OpValUuid::Eq(u));
    assert_eq!(OpValUuid::from(&u), OpValUuid::Eq(u));
    assert_eq!(OpVal::from(OpValUuid::Null(true)), OpVal::Uuid(OpValUuid::Null(true)));
    let d = UtcDateTime::from_timestamp(5, 6).unwrap();
    assert_eq!(OpValTimestamp::from(d), OpValTimestamp::Eq(d));
    assert_eq!(OpValTimestamp::from(&d), OpValTimestamp::Eq(d));
    assert_eq!(OpVal::from(OpValTimestamp::Eq(d)), OpVal::Timestamp(OpValTimestamp::Eq(d)));
    assert_eq!(d.timestamp(), 5);
    assert_eq!(d.timestamp_subsec_nanos(), 6);
}

#[test]
fn test_json_value_sender_encoding_parses_back() {
    let mut obj = serde_json::Map::new();
    obj.insert("k".to_string(), serde_json::Value::from("v"));
    obj.insert("n".to_string(), serde_json::Value::from(-2.5));
    let values = vec![
        serde_json::Value::from("hello world"),
        serde_json::Value::from(42),
        serde_json::Value::Bool(false),
        serde_json::Value::Null,
        serde_json::Value::Object(obj),
        serde_json::Value::Array(vec![serde_json::Value::from(1), serde_json::Value::from("x")]),
    ];
    for v in values {
        let sent = serde_json::to_string(&v).unwrap();
        let p = ProtoOpValJsonValue { op: Some(proto_op_val_json_value::Op::Lte(sent)) };
        assert_eq!(OpValValue::try_from(p).unwrap(), OpValValue::Lte(v));
    }
}

#[test]
fn test_first_failing_node_in_group_major_order() {
    let ok_bool = ProtoOpVal {
        value: Some(proto_op_val::Value::Bool(ProtoOpValBool { op: Some(proto_op_val_bool::Op::Eq(true)) })),
    };
    let bad_uuid = uuid_opval(proto_op_val_uuid::Op::Eq("not base64 !".into()));
    let no_string_op = ProtoOpVal { value: Some(proto_op_val::Value::String(ProtoOpValString { op: None })) };
    let p = ProtoFilterGroups {
        groups: vec![
            ProtoFilterGroup { nodes: vec![node("a", None, vec![ok_bool.clone()]), node("b", None, vec![ok_bool.clone()])] },
            ProtoFilterGroup { nodes: vec![node("c", None, vec![ok_bool.clone(), bad_uuid, no_string_op.clone()])] },
            ProtoFilterGroup { nodes: vec![node("d", None, vec![no_string_op])] },
        ],
    };
    assert!(matches!(FilterGroups::try_from(p), Err(ProtoConversionError::MissingField("Invalid UUID"))));
}

#[test]
fn test_invalid_json_message_carries_the_json_error() {
    let text = "[1, 2";
    let json_err = serde_json::from_str::<serde_json::Value>(text).unwrap_err();
    let err = OpValValue::try_from(ProtoOpValJsonValue { op: Some(proto_op_val_json_value::Op::Gt(text.into())) })
        .unwrap_err();
    assert_eq!(err.to_string(), format!("invalid JSON value in proto message: {json_err}"));
}

#[test]
fn test_encode_uuid_parses_back() {
    for v in [0u128, 1, u128::MAX, 0x67e5_5044_10b1_426f_9247_bb68_0e5f_e0c8] {
        let text = encode_uuid(Uuid(v));
        assert_eq!(text, data_encoding::BASE64URL_NOPAD.encode(&v.to_be_bytes()));
        assert_eq!(text.len(), 22);
        assert_eq!(parse_uuid(&text).unwrap(), Uuid(v));
    }
}
