use modql::filter::{OpValTimestamp, OpValUuid, OpValsTimestamp, OpValsUuid};
use modql::json::JsonValue;
use modql::time::UtcDateTime;
use modql::uuid_value::Uuid;
use modql::JsonValError;

const UUID_TEXT: &str = "67e55044-10b1-426f-9247-bb680e5fe0c8";

fn uuid_value() -> Uuid {
    Uuid(uuid::Uuid::parse_str(UUID_TEXT).unwrap().as_u128())
}

fn s(v: &str) -> JsonValue {
    JsonValue::String(v.to_string())
}

#[test]
fn test_uuid_json_single_ops() {
    let u = uuid_value();
    let cases = [
        ("$eq", OpValUuid::Eq(u)),
        ("$not", OpValUuid::Not(u)),
        ("$lt", OpValUuid::Lt(u)),
        ("$lte", OpValUuid::Lte(u)),
        ("$gt", OpValUuid::Gt(u)),
        ("$gte", OpValUuid::Gte(u)),
    ];
    for (op, expected) in cases {
        assert_eq!(OpValUuid::op_value_to_op_val_type(op, s(UUID_TEXT)).unwrap(), expected);
    }
    // The simple (unhyphenated) form is accepted too.
    assert_eq!(
        OpValUuid::op_value_to_op_val_type("$eq", s("67e5504410b1426f9247bb680e5fe0c8")).unwrap(),
        OpValUuid::Eq(u)
    );
}

#[test]
fn test_uuid_json_list_ops() {
    let u = uuid_value();
    let v = JsonValue::Array(vec![s(UUID_TEXT), s("00000000-0000-0000-0000-000000000000")]);
    assert_eq!(OpValUuid::op_value_to_op_val_type("$in", v).unwrap(), OpValUuid::In(vec![u, Uuid(0)]));
    let v = JsonValue::Array(vec![]);
    assert_eq!(OpValUuid::op_value_to_op_val_type("$notIn", v).unwrap(), OpValUuid::NotIn(vec![]));
}

#[test]
fn test_uuid_json_errors() {
    assert!(matches!(
        OpValUuid::op_value_to_op_val_type("$eq", s("not-a-uuid")),
        Err(JsonValError::JsonValNotOfType("Uuid"))
    ));
    assert!(matches!(
        OpValUuid::op_value_to_op_val_type("$eq", JsonValue::Bool(true)),
        Err(JsonValError::JsonValNotOfType("Uuid"))
    ));
    let r = OpValUuid::op_value_to_op_val_type("$in", s(UUID_TEXT));
    assert!(matches!(r, Err(JsonValError::JsonValArrayWrongType { actual_value }) if actual_value == s(UUID_TEXT)));
    let r = OpValUuid::op_value_to_op_val_type("$in", JsonValue::Array(vec![s(UUID_TEXT), JsonValue::Number("1".into())]));
    assert!(matches!(r, Err(JsonValError::JsonValNotOfType("Uuid"))));
    let r = OpValUuid::op_value_to_op_val_type("$null", s("yes"));
    assert!(matches!(r, Err(JsonValError::JsonOpValNotSupported { operator, value }) if operator == "$null" && value == s("yes")));
    let r = OpValUuid::op_value_to_op_val_type("$contains", s(UUID_TEXT));
    assert!(matches!(r, Err(JsonValError::JsonOpValNotSupported { operator, value }) if operator == "$contains" && value == s(UUID_TEXT)));
}

#[test]
fn test_uuid_json_null() {
    assert_eq!(OpValUuid::op_value_to_op_val_type("$null", JsonValue::Bool(true)).unwrap(), OpValUuid::Null(true));
    assert_eq!(OpValUuid::op_value_to_op_val_type("$null", JsonValue::Bool(false)).unwrap(), OpValUuid::Null(false));
}

#[test]
fn test_uuid_bare_string() {
    assert_eq!(OpValsUuid::from_uuid_text(UUID_TEXT).unwrap(), OpValsUuid(vec![OpValUuid::Eq(uuid_value())]));
    assert!(OpValsUuid::from_uuid_text("nope").is_none());
}

#[test]
fn test_timestamp_json_ops() {
    let d = UtcDateTime::from_timestamp(1_704_164_645, 0).unwrap();
    assert_eq!(
        OpValTimestamp::op_value_to_op_val_type("$gte", s("2024-01-02T03:04:05Z")).unwrap(),
        OpValTimestamp::Gte(d)
    );
    assert_eq!(
        OpValTimestamp::op_value_to_op_val_type("$eq", s("2024-01-02T04:04:05+01:00")).unwrap(),
        OpValTimestamp::Eq(d)
    );
    let d2 = UtcDateTime::from_timestamp(0, 500_000_000).unwrap();
    let v = JsonValue::Array(vec![s("2024-01-02T03:04:05Z"), s("1970-01-01T00:00:00.5Z")]);
    assert_eq!(OpValTimestamp::op_value_to_op_val_type("$in", v).unwrap(), OpValTimestamp::In(vec![d, d2]));
    assert_eq!(
        OpValTimestamp::op_value_to_op_val_type("$null", JsonValue::Bool(true)).unwrap(),
        OpValTimestamp::Null(true)
    );
}

#[test]
fn test_timestamp_json_errors() {
    assert!(matches!(
        OpValTimestamp::op_value_to_op_val_type("$lt", s("yesterday")),
        Err(JsonValError::JsonValNotOfType("DateTime<Utc>"))
    ));
    assert!(matches!(
        OpValTimestamp::op_value_to_op_val_type("$notIn", JsonValue::Null),
        Err(JsonValError::JsonValArrayWrongType { actual_value: JsonValue::Null })
    ));
    let r = OpValTimestamp::op_value_to_op_val_type("$in", JsonValue::Array(vec![JsonValue::Null]));
    assert!(matches!(r, Err(JsonValError::JsonValNotOfType("DateTime<Utc>"))));
    let r = OpValTimestamp::op_value_to_op_val_type("$between", JsonValue::Null);
    assert!(matches!(r, Err(JsonValError::JsonOpValNotSupported { operator, value: JsonValue::Null }) if operator == "$between"));
}

#[test]
fn test_timestamp_bare_string() {
    let d = UtcDateTime::from_timestamp(1_704_164_645, 0).unwrap();
    assert_eq!(
        OpValsTimestamp::from_datetime_text("2024-01-02T03:04:05Z").unwrap(),
        OpValsTimestamp(vec![OpValTimestamp::Eq(d)])
    );
    assert!(OpValsTimestamp::from_datetime_text("2024-13-02T03:04:05Z").is_none());
}

#[test]
fn test_bare_text_matches_eq_entry() {
    for text in [UUID_TEXT, "67E55044-10B1-426F-9247-BB680E5FE0C8", "not-a-uuid", ""] {
        let bare = OpValsUuid::from_uuid_text(text);
        let entry = OpValUuid::op_value_to_op_val_type("$eq", s(text));
        match (bare, entry) {
            (Some(ovs), Ok(ov)) => assert_eq!(ovs, OpValsUuid(vec![ov])),
            (None, Err(e)) => assert!(matches!(e, JsonValError::JsonValNotOfType("Uuid"))),
            _ => panic!("bare text and $eq entry disagree on {text:?}"),
        }
    }
    for text in ["2024-01-02T03:04:05Z", "2024-01-02T03:04:05.25-02:00", "2024-13-02T03:04:05Z", "now"] {
        let bare = OpValsTimestamp::from_datetime_text(text);
        let entry = OpValTimestamp::op_value_to_op_val_type("$eq", s(text));
        match (bare, entry) {
            (Some(ovs), Ok(ov)) => assert_eq!(ovs, OpValsTimestamp(vec![ov])),
            (None, Err(e)) => assert!(matches!(e, JsonValError::JsonValNotOfType("DateTime<Utc>"))),
            _ => panic!("bare text and $eq entry disagree on {text:?}"),
        }
    }
}

#[test]
fn test_push_entry_keeps_order_and_stops_list_unchanged_on_error() {
    let u = uuid_value();
    let mut ovs = OpValsUuid(Vec::new());
    ovs.push_entry("$eq", s(UUID_TEXT)).unwrap();
    ovs.push_entry("$null", JsonValue::Bool(false)).unwrap();
    ovs.push_entry("$eq", s(UUID_TEXT)).unwrap();
    assert_eq!(ovs, OpValsUuid(vec![OpValUuid::Eq(u), OpValUuid::Null(false), OpValUuid::Eq(u)]));
    let r = ovs.push_entry("$gt", s("nope"));
    assert!(matches!(r, Err(JsonValError::JsonValNotOfType("Uuid"))));
    assert_eq!(ovs, OpValsUuid(vec![OpValUuid::Eq(u), OpValUuid::Null(false), OpValUuid::Eq(u)]));

    let d = UtcDateTime::from_timestamp(1_704_164_645, 0).unwrap();
    let mut ts = OpValsTimestamp(Vec::new());
    ts.push_entry("$lt", s("2024-01-02T03:04:05Z")).unwrap();
    assert!(ts.push_entry("$between", JsonValue::Null).is_err());
    assert_eq!(ts, OpValsTimestamp(vec![OpValTimestamp::Lt(d)]));
}
