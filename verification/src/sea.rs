//! Building `sea_query` conditions from operator values.
//!
//! The choice of SQL operator for each operator value is made by verified
//! code ([`SeaCondPlan`]); the calls below only assemble the `sea_query`
//! expressions that the plan describes.

use crate::filter::FilterNodeOptions;
use crate::op_model::{CmpKind, ListKind, OpModel};
use crate::time::timestamp_in_range;
use crate::uuid_value::Uuid;
use sea_query::{BinOper, ColumnRef, Condition, Expr, ExprTrait};
use vstd::prelude::*;

verus! {

#[verifier::external_type_specification]
#[verifier::external_body]
pub struct ExColumnRef(sea_query::ColumnRef);

#[verifier::external_type_specification]
#[verifier::external_body]
pub struct ExExpr(sea_query::Expr);

#[verifier::external_type_specification]
#[verifier::external_body]
pub struct ExCondition(sea_query::Condition);

#[verifier::external_type_specification]
#[verifier::external_body]
pub struct ExBinOper(sea_query::BinOper);

/// Errors in building a condition.
#[derive(Debug)]
pub enum IntoSeaError {
    Custom(String),
}

/// The result of building a condition.
pub type SeaResult<T> = Result<T, IntoSeaError>;

/// The SQL comparison operators that filters use.
#[derive(Debug, Clone, Copy, PartialEq, Eq, Structural)]
pub enum SeaBinOp {
    Equal,
    NotEqual,
    In,
    NotIn,
    SmallerThan,
    SmallerThanOrEqual,
    GreaterThan,
    GreaterThanOrEqual,
}

/// The SQL operator of a single-value comparison.
pub open spec fn cmp_bin_op(k: CmpKind) -> SeaBinOp {
    match k {
        CmpKind::Eq => SeaBinOp::Equal,
        CmpKind::Not => SeaBinOp::NotEqual,
        CmpKind::Lt => SeaBinOp::SmallerThan,
        CmpKind::Lte => SeaBinOp::SmallerThanOrEqual,
        CmpKind::Gt => SeaBinOp::GreaterThan,
        CmpKind::Gte => SeaBinOp::GreaterThanOrEqual,
    }
}

/// The SQL operator of a list comparison.
pub open spec fn list_bin_op(k: ListKind) -> SeaBinOp {
    match k {
        ListKind::In => SeaBinOp::In,
        ListKind::NotIn => SeaBinOp::NotIn,
    }
}

/// What condition to build for an operator value: the column compared with
/// one value, with a tuple of values, or tested for `NULL` (`true`) or
/// `NOT NULL` (`false`).
#[derive(Debug)]
pub enum SeaCondPlan<T> {
    Compare(SeaBinOp, T),
    CompareList(SeaBinOp, Vec<T>),
    IsNull(bool),
}

/// Model of [`SeaCondPlan`].
pub enum SeaCondModel<T> {
    Compare(SeaBinOp, T),
    CompareList(SeaBinOp, Seq<T>),
    IsNull(bool),
}

impl<T> View for SeaCondPlan<T> {
    type V = SeaCondModel<T>;

    open spec fn view(&self) -> SeaCondModel<T> {
        match self {
            SeaCondPlan::Compare(op, v) => SeaCondModel::Compare(*op, *v),
            SeaCondPlan::CompareList(op, vs) => SeaCondModel::CompareList(*op, vs@),
            SeaCondPlan::IsNull(b) => SeaCondModel::IsNull(*b),
        }
    }
}

/// The condition plan of an operator value: `Eq` is `=`, `Not` is `<>`,
/// `In`/`NotIn` compare with the tuple of values, `Lt`, `Lte`, `Gt`, `Gte`
/// are `<`, `<=`, `>`, `>=`, and `Null(b)` tests for `NULL` when `b`, else
/// for `NOT NULL`.
pub open spec fn sea_plan_of<T>(m: OpModel<T>) -> SeaCondModel<T> {
    match m {
        OpModel::Eq(v) => SeaCondModel::Compare(cmp_bin_op(CmpKind::Eq), v),
        OpModel::Not(v) => SeaCondModel::Compare(cmp_bin_op(CmpKind::Not), v),
        OpModel::In(vs) => SeaCondModel::CompareList(list_bin_op(ListKind::In), vs),
        OpModel::NotIn(vs) => SeaCondModel::CompareList(list_bin_op(ListKind::NotIn), vs),
        OpModel::Lt(v) => SeaCondModel::Compare(cmp_bin_op(CmpKind::Lt), v),
        OpModel::Lte(v) => SeaCondModel::Compare(cmp_bin_op(CmpKind::Lte), v),
        OpModel::Gt(v) => SeaCondModel::Compare(cmp_bin_op(CmpKind::Gt), v),
        OpModel::Gte(v) => SeaCondModel::Compare(cmp_bin_op(CmpKind::Gte), v),
        OpModel::Null(b) => SeaCondModel::IsNull(b),
    }
}

/// The plan with each value replaced by `f` of it.
pub open spec fn map_plan<T, U>(p: SeaCondModel<T>, f: spec_fn(T) -> U) -> SeaCondModel<U> {
    match p {
        SeaCondModel::Compare(op, v) => SeaCondModel::Compare(op, f(v)),
        SeaCondModel::CompareList(op, vs) => SeaCondModel::CompareList(op, vs.map_values(f)),
        SeaCondModel::IsNull(b) => SeaCondModel::IsNull(b),
    }
}

/// The column expression of a node: the column, cast to `cast_column_as`
/// when the options set it.
pub open spec fn column_expr_of(col: ColumnRef, o: FilterNodeOptions) -> Expr {
    match o.cast_column_as {
        Some(t) => sea_cast_of(sea_column_of(col), t@),
        None => sea_column_of(col),
    }
}

/// The value expression of a node: the value, cast to `cast_as` when the
/// options set it.
pub open spec fn value_expr_of(v: Expr, o: FilterNodeOptions) -> Expr {
    match o.cast_as {
        Some(t) => sea_cast_of(v, t@),
        None => v,
    }
}

/// `col IS NULL` when `null`, else `col IS NOT NULL`, as a condition.
pub open spec fn is_null_condition_of(col: ColumnRef, null: bool) -> Condition {
    if null {
        sea_condition_of(sea_is_null_of(col))
    } else {
        sea_condition_of(sea_is_not_null_of(col))
    }
}

/// The condition that a plan over value expressions describes for column
/// `col`: the column expression compared by the plan's operator with the
/// value expression, or with the tuple of the value expressions in order;
/// or the `NULL` test on the bare column (no cast applies to it).
pub open spec fn plan_condition_of(plan: SeaCondModel<Expr>, col: ColumnRef, o: FilterNodeOptions) -> Condition {
    match plan {
        SeaCondModel::Compare(op, v) => sea_condition_of(
            sea_binary_of(column_expr_of(col, o), sea_bin_oper_of(op), v),
        ),
        SeaCondModel::CompareList(op, vs) => sea_condition_of(
            sea_binary_of(column_expr_of(col, o), sea_bin_oper_of(op), sea_tuple_of(vs)),
        ),
        SeaCondModel::IsNull(b) => is_null_condition_of(col, b),
    }
}

/// The column as an expression, cast to `cast_column_as` when the options set it.
pub(crate) fn into_node_column_expr(col: ColumnRef, node_options: &FilterNodeOptions) -> (r: Expr)
    ensures
        r == column_expr_of(col, *node_options),
{
    let column = sea_column_expr(col);
    match &node_options.cast_column_as {
        Some(sql_type) => sea_cast_as(column, sql_type.as_str()),
        None => column,
    }
}

/// The value expression, cast to `cast_as` when the options set it; with no
/// `cast_as`, the value expression itself.
pub(crate) fn into_node_value_expr(value: Expr, node_options: &FilterNodeOptions) -> (r: Expr)
    ensures
        r == value_expr_of(value, *node_options),
        node_options.cast_as is None ==> r == value,
{
    match &node_options.cast_as {
        Some(sql_type) => sea_cast_as(value, sql_type.as_str()),
        None => value,
    }
}

/// `col IS NULL` when `null`, else `col IS NOT NULL`.
pub(crate) fn sea_is_col_value_null(col: ColumnRef, null: bool) -> (r: Condition)
    ensures
        r == is_null_condition_of(col, null),
{
    if null {
        sea_condition(sea_col_is_null(col))
    } else {
        sea_condition(sea_col_is_not_null(col))
    }
}

/// Builds the condition that `plan` describes for column `col`; the values
/// of the plan are already expressions, cast as the options say.
pub(crate) fn plan_into_condition(plan: SeaCondPlan<Expr>, col: &ColumnRef, node_options: &FilterNodeOptions) -> (r: Condition)
    ensures
        r == plan_condition_of(plan@, *col, *node_options),
{
    match plan {
        SeaCondPlan::Compare(op, vxpr) => {
            let column = into_node_column_expr(sea_clone_column(col), node_options);
            sea_condition(sea_binary(column, sea_bin_oper(op), vxpr))
        },
        SeaCondPlan::CompareList(op, vxpr_list) => {
            let column = into_node_column_expr(sea_clone_column(col), node_options);
            sea_condition(sea_binary(column, sea_bin_oper(op), sea_tuple(vxpr_list)))
        },
        SeaCondPlan::IsNull(null) => sea_is_col_value_null(sea_clone_column(col), null),
    }
}

/// What `sea_query::Expr::from(Value::Uuid(Some(uuid::Uuid::from_u128(u))))`
/// gives: the UUID with value `u` as an SQL value.
pub uninterp spec fn sea_uuid_value(u: u128) -> Expr;

/// A UUID as an SQL value.
///
/// Trusted: calls `uuid::Uuid::from_u128` and `sea_query::Expr::from` on the
/// `Value::Uuid`; the contract only names the expression (`sea_uuid_value`),
/// which depends on the UUID alone.
#[verifier::external_body]
pub(crate) fn sea_uuid_expr(u: Uuid) -> (r: Expr)
    ensures
        r == sea_uuid_value(u.0),
{
    Expr::from(sea_query::Value::Uuid(Some(::uuid::Uuid::from_u128(u.0))))
}

/// What `sea_query::Expr::from` gives for the `chrono::DateTime<Utc>` with
/// these seconds and nanoseconds since the UNIX epoch.
pub uninterp spec fn sea_datetime_value(secs: i64, nsecs: u32) -> Expr;

/// A date-time as an SQL value.
///
/// Trusted: calls `chrono::DateTime::from_timestamp`, which succeeds on
/// parts in range, and `sea_query::Expr::from` on the date-time with those
/// parts; the contract only names the expression (`sea_datetime_value`),
/// which depends on the parts alone.
#[verifier::external_body]
pub(crate) fn sea_datetime_expr(secs: i64, nsecs: u32) -> (r: Expr)
    requires
        timestamp_in_range(secs, nsecs),
    ensures
        r == sea_datetime_value(secs, nsecs),
{
    Expr::from(chrono::DateTime::from_timestamp(secs, nsecs).unwrap())
}

/// Trusted: the derived `Clone::clone` of `sea_query::ColumnRef`, which
/// copies the value field for field: the copy equals the original.
#[verifier::external_body]
fn sea_clone_column(col: &ColumnRef) -> (r: ColumnRef)
    ensures
        r == *col,
{
    col.clone()
}

/// What `sea_query::Expr::Column(col)` is: the column as an expression.
pub uninterp spec fn sea_column_of(col: ColumnRef) -> Expr;

/// Trusted: builds `sea_query::Expr::Column(col)`; the contract names it
/// (`sea_column_of`).
#[verifier::external_body]
fn sea_column_expr(col: ColumnRef) -> (r: Expr)
    ensures
        r == sea_column_of(col),
{
    Expr::Column(col)
}

/// What `ExprTrait::cast_as(e, Alias::new(t))` gives: `CAST(e AS t)`.
pub uninterp spec fn sea_cast_of(e: Expr, t: Seq<char>) -> Expr;

/// Trusted: `ExprTrait::cast_as` with `sea_query::Alias::new(sql_type)`;
/// the contract names the expression (`sea_cast_of`), which depends on the
/// expression and the type's text alone.
#[verifier::external_body]
fn sea_cast_as(e: Expr, sql_type: &str) -> (r: Expr)
    ensures
        r == sea_cast_of(e, sql_type@),
{
    e.cast_as(sea_query::Alias::new(sql_type))
}

/// The `sea_query::BinOper` variant of the same name as `op`.
pub uninterp spec fn sea_bin_oper_of(op: SeaBinOp) -> BinOper;

/// Trusted: the `sea_query::BinOper` variant of the same name; the contract
/// names it (`sea_bin_oper_of`).
#[verifier::external_body]
fn sea_bin_oper(op: SeaBinOp) -> (r: BinOper)
    ensures
        r == sea_bin_oper_of(op),
{
    match op {
        SeaBinOp::Equal => BinOper::Equal,
        SeaBinOp::NotEqual => BinOper::NotEqual,
        SeaBinOp::In => BinOper::In,
        SeaBinOp::NotIn => BinOper::NotIn,
        SeaBinOp::SmallerThan => BinOper::SmallerThan,
        SeaBinOp::SmallerThanOrEqual => BinOper::SmallerThanOrEqual,
        SeaBinOp::GreaterThan => BinOper::GreaterThan,
        SeaBinOp::GreaterThanOrEqual => BinOper::GreaterThanOrEqual,
    }
}

/// What `ExprTrait::binary(left, op, right)` gives: `left op right`.
pub uninterp spec fn sea_binary_of(left: Expr, op: BinOper, right: Expr) -> Expr;

/// Trusted: `ExprTrait::binary`; the contract names the expression
/// (`sea_binary_of`), which depends on its three arguments alone.
#[verifier::external_body]
fn sea_binary(left: Expr, op: BinOper, right: Expr) -> (r: Expr)
    ensures
        r == sea_binary_of(left, op, right),
{
    left.binary(op, right)
}

/// What `sea_query::Expr::Tuple(items)` is: the tuple of the expressions in order.
pub uninterp spec fn sea_tuple_of(items: Seq<Expr>) -> Expr;

/// Trusted: builds `sea_query::Expr::Tuple(items)`; the contract names it
/// (`sea_tuple_of`).
#[verifier::external_body]
fn sea_tuple(items: Vec<Expr>) -> (r: Expr)
    ensures
        r == sea_tuple_of(items@),
{
    Expr::Tuple(items)
}

/// What `sea_query::Condition::from(e)` gives: the condition that `e` holds.
pub uninterp spec fn sea_condition_of(e: Expr) -> Condition;

/// Trusted: `sea_query::Condition::from` an expression; the contract names
/// the condition (`sea_condition_of`).
#[verifier::external_body]
fn sea_condition(e: Expr) -> (r: Condition)
    ensures
        r == sea_condition_of(e),
{
    Condition::from(e)
}

/// What `Expr::col(col).is_null()` gives: `col IS NULL`.
pub uninterp spec fn sea_is_null_of(col: ColumnRef) -> Expr;

/// Trusted: `Expr::col(col).is_null()`; the contract names the expression
/// (`sea_is_null_of`).
#[verifier::external_body]
fn sea_col_is_null(col: ColumnRef) -> (r: Expr)
    ensures
        r == sea_is_null_of(col),
{
    Expr::col(col).is_null()
}

/// What `Expr::col(col).is_not_null()` gives: `col IS NOT NULL`.
pub uninterp spec fn sea_is_not_null_of(col: ColumnRef) -> Expr;

/// Trusted: `Expr::col(col).is_not_null()`; the contract names the
/// expression (`sea_is_not_null_of`).
#[verifier::external_body]
fn sea_col_is_not_null(col: ColumnRef) -> (r: Expr)
    ensures
        r == sea_is_not_null_of(col),
{
    Expr::col(col).is_not_null()
}

/// Each operator builds its own SQL comparison: `Eq` is `=`, `Not` is `<>`,
/// `Lt`, `Lte`, `Gt`, `Gte` are `<`, `<=`, `>`, `>=`, `In` and `NotIn` are
/// `IN` and `NOT IN` over the values in order, and `Null(b)` tests the bare
/// column for `IS NULL` when `b`, else for `IS NOT NULL`.
pub proof fn lemma_sea_plan_ops<T>(v: T, vs: Seq<T>, b: bool, col: ColumnRef)
    ensures
        sea_plan_of(OpModel::Eq(v)) == SeaCondModel::Compare(SeaBinOp::Equal, v),
        sea_plan_of(OpModel::Not(v)) == SeaCondModel::Compare(SeaBinOp::NotEqual, v),
        sea_plan_of(OpModel::Lt(v)) == SeaCondModel::Compare(SeaBinOp::SmallerThan, v),
        sea_plan_of(OpModel::Lte(v)) == SeaCondModel::Compare(SeaBinOp::SmallerThanOrEqual, v),
        sea_plan_of(OpModel::Gt(v)) == SeaCondModel::Compare(SeaBinOp::GreaterThan, v),
        sea_plan_of(OpModel::Gte(v)) == SeaCondModel::Compare(SeaBinOp::GreaterThanOrEqual, v),
        sea_plan_of(OpModel::In(vs)) == SeaCondModel::CompareList(SeaBinOp::In, vs),
        sea_plan_of(OpModel::NotIn(vs)) == SeaCondModel::CompareList(SeaBinOp::NotIn, vs),
        sea_plan_of(OpModel::<T>::Null(b)) == SeaCondModel::<T>::IsNull(b),
        is_null_condition_of(col, true) == sea_condition_of(sea_is_null_of(col)),
        is_null_condition_of(col, false) == sea_condition_of(sea_is_not_null_of(col)),
{
}

} // verus!
