use modql::filter::{FilterNodeOptions, OpValTimestamp, OpValUuid};
use modql::sea::{SeaBinOp, SeaCondPlan};
use modql::time::UtcDateTime;
use modql::uuid_value::Uuid;
use sea_query::{ColumnRef, Condition, PostgresQueryBuilder, Query};

fn sql_of(cond: Condition) -> String {
    let query = Query::select().cond_where(cond).to_owned();
    let (sql, _) = query.build(PostgresQueryBuilder);
    sql
}

fn no_options() -> FilterNodeOptions {
    FilterNodeOptions { cast_as: None, cast_column_as: None }
}

#[test]
fn test_timestamp_sea_query_integration() {
    let now = chrono::Utc::now();
    let now = UtcDateTime::from_timestamp(now.timestamp(), now.timestamp_subsec_nanos()).unwrap();
    let col = ColumnRef::from("time");

    let cond = OpValTimestamp::Eq(now).into_sea_cond_expr(&col, &no_options()).unwrap();
    assert!(sql_of(cond).contains(r#""time" = $1"#));

    let cond = OpValTimestamp::In(vec![now, now]).into_sea_cond_expr(&col, &no_options()).unwrap();
    assert!(sql_of(cond).contains(r#""time" IN ($1, $2)"#));
}

#[test]
fn test_timestamp_sea_operators() {
    let d = UtcDateTime::from_timestamp(0, 0).unwrap();
    let col = ColumnRef::from("time");
    let cases = [
        (OpValTimestamp::Not(d), r#""time" <> $1"#),
        (OpValTimestamp::Lt(d), r#""time" < $1"#),
        (OpValTimestamp::Lte(d), r#""time" <= $1"#),
        (OpValTimestamp::Gt(d), r#""time" > $1"#),
        (OpValTimestamp::Gte(d), r#""time" >= $1"#),
        (OpValTimestamp::NotIn(vec![d]), r#""time" NOT IN ($1)"#),
        (OpValTimestamp::Null(true), r#""time" IS NULL"#),
        (OpValTimestamp::Null(false), r#""time" IS NOT NULL"#),
    ];
    for (ov, expected) in cases {
        let sql = sql_of(ov.into_sea_cond_expr(&col, &no_options()).unwrap());
        assert!(sql.contains(expected), "{sql} should contain {expected}");
    }
}

#[test]
fn test_uuid_sea_query_with_casts() {
    let col = ColumnRef::from("id");
    let options = FilterNodeOptions { cast_as: Some("text".into()), cast_column_as: Some("text".into()) };
    let sql = sql_of(OpValUuid::Eq(Uuid(1)).into_sea_cond_expr(&col, &options).unwrap());
    assert!(sql.contains(r#"CAST("id" AS text) = CAST($1 AS text)"#), "{sql}");
    let sql = sql_of(OpValUuid::In(vec![Uuid(1), Uuid(2)]).into_sea_cond_expr(&col, &no_options()).unwrap());
    assert!(sql.contains(r#""id" IN ($1, $2)"#), "{sql}");
    let sql = sql_of(OpValUuid::Null(true).into_sea_cond_expr(&col, &options).unwrap());
    assert!(sql.contains(r#""id" IS NULL"#), "{sql}");
}

#[test]
fn test_sea_cond_plans() {
    assert!(matches!(OpValUuid::Lte(Uuid(3)).into_sea_cond_plan(), SeaCondPlan::Compare(SeaBinOp::SmallerThanOrEqual, Uuid(3))));
    assert!(matches!(OpValUuid::NotIn(vec![Uuid(3)]).into_sea_cond_plan(), SeaCondPlan::CompareList(SeaBinOp::NotIn, v) if v == vec![Uuid(3)]));
    assert!(matches!(OpValUuid::Null(false).into_sea_cond_plan(), SeaCondPlan::IsNull(false)));
    let d = UtcDateTime::from_timestamp(9, 9).unwrap();
    assert!(matches!(OpValTimestamp::Not(d).into_sea_cond_plan(), SeaCondPlan::Compare(SeaBinOp::NotEqual, x) if x == d));
}
