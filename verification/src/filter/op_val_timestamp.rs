//! Operator values over date-times: construction, parsing from JSON filters, and
//! the `sea_query` conditions built from them.

use crate::error::{is_not_supported, not_supported, JsonValError};
use crate::filter::{FilterNodeOptions, OpVal};
use crate::json::JsonValue;
use crate::op_model::{
    json_op_name, json_op_name_of, list_op, single_op, CmpKind, JsonOpName, ListKind,
    OpModel,
};
use crate::sea::{
    into_node_value_expr, map_plan, plan_condition_of, plan_into_condition, sea_plan_of, sea_datetime_expr,
    value_expr_of, sea_datetime_value, IntoSeaError, SeaBinOp, SeaCondPlan, SeaResult,
};
use crate::time::{datetime_text_parsed, parse_datetime, UtcDateTime};
use sea_query::{ColumnRef, Condition, Expr};
use vstd::prelude::*;

verus! {

/// A list of operator values over date-times, as given for one filter field.
#[derive(Debug, Clone, PartialEq)]
pub struct OpValsTimestamp(pub Vec<OpValTimestamp>);

/// Operator values over date-times.
#[derive(Debug, Clone, PartialEq)]
pub enum OpValTimestamp {
    Eq(UtcDateTime),
    Not(UtcDateTime),
    In(Vec<UtcDateTime>),
    NotIn(Vec<UtcDateTime>),
    Lt(UtcDateTime),
    Lte(UtcDateTime),
    Gt(UtcDateTime),
    Gte(UtcDateTime),
    Null(bool),
}

impl View for OpValTimestamp {
    type V = OpModel<UtcDateTime>;

    open spec fn view(&self) -> OpModel<UtcDateTime> {
        match self {
            OpValTimestamp::Eq(v) => OpModel::Eq(*v),
            OpValTimestamp::Not(v) => OpModel::Not(*v),
            OpValTimestamp::In(vs) => OpModel::In(vs@),
            OpValTimestamp::NotIn(vs) => OpModel::NotIn(vs@),
            OpValTimestamp::Lt(v) => OpModel::Lt(*v),
            OpValTimestamp::Lte(v) => OpModel::Lte(*v),
            OpValTimestamp::Gt(v) => OpModel::Gt(*v),
            OpValTimestamp::Gte(v) => OpModel::Gte(*v),
            OpValTimestamp::Null(b) => OpModel::Null(*b),
        }
    }
}

impl View for OpValsTimestamp {
    type V = Seq<OpModel<UtcDateTime>>;

    open spec fn view(&self) -> Seq<OpModel<UtcDateTime>> {
        self.0@.map_values(|o: OpValTimestamp| o@)
    }
}

impl From<UtcDateTime> for OpValTimestamp {
    fn from(val: UtcDateTime) -> Self {
        OpValTimestamp::Eq(val)
    }
}

impl vstd::std_specs::convert::FromSpecImpl<UtcDateTime> for OpValTimestamp {
    open spec fn obeys_from_spec() -> bool {
        true
    }

    open spec fn from_spec(v: UtcDateTime) -> OpValTimestamp {
        OpValTimestamp::Eq(v)
    }
}

impl From<&UtcDateTime> for OpValTimestamp {
    fn from(val: &UtcDateTime) -> Self {
        OpValTimestamp::Eq(*val)
    }
}

impl vstd::std_specs::convert::FromSpecImpl<&UtcDateTime> for OpValTimestamp {
    open spec fn obeys_from_spec() -> bool {
        true
    }

    open spec fn from_spec(v: &UtcDateTime) -> OpValTimestamp {
        OpValTimestamp::Eq(*v)
    }
}

impl From<OpValTimestamp> for OpVal {
    fn from(val: OpValTimestamp) -> Self {
        OpVal::Timestamp(val)
    }
}

impl vstd::std_specs::convert::FromSpecImpl<OpValTimestamp> for OpVal {
    open spec fn obeys_from_spec() -> bool {
        true
    }

    open spec fn from_spec(v: OpValTimestamp) -> OpVal {
        OpVal::Timestamp(v)
    }
}

/// The date-time that a JSON value denotes: a string in one of the date-time text forms.
pub open spec fn datetime_of_json(v: JsonValue) -> Option<UtcDateTime> {
    match v {
        JsonValue::String(s) => datetime_text_parsed(s@),
        _ => None,
    }
}

/// The date-times of a list of JSON values, when every item denotes one.
pub open spec fn datetimes_of_json(items: Seq<JsonValue>) -> Option<Seq<UtcDateTime>> {
    if forall|i: int| 0 <= i < items.len() ==> (#[trigger] datetime_of_json(items[i])) is Some {
        Some(Seq::new(items.len(), |i: int| datetime_of_json(items[i])->0))
    } else {
        None
    }
}

/// The operator value that a JSON filter entry `{op: value}` denotes over
/// date-times, as `result` must be: single-value operators take a date-time string,
/// `$in`/`$notIn` an array of them, `$null` a boolean.
pub open spec fn is_timestamp_op_value(op: Seq<char>, value: JsonValue, result: Result<OpValTimestamp, JsonValError>) -> bool {
    match json_op_name_of(op) {
        JsonOpName::Single(k) => match datetime_of_json(value) {
            Some(d) => result matches Ok(ov) && ov@ == single_op(k, d),
            None => result == Err::<OpValTimestamp, JsonValError>(JsonValError::JsonValNotOfType("DateTime<Utc>")),
        },
        JsonOpName::List(k) => match value {
            JsonValue::Array(items) => match datetimes_of_json(items@) {
                Some(dts) => result matches Ok(ov) && ov@ == list_op(k, dts),
                None => result == Err::<OpValTimestamp, JsonValError>(JsonValError::JsonValNotOfType("DateTime<Utc>")),
            },
            _ => result == Err::<OpValTimestamp, JsonValError>(JsonValError::JsonValArrayWrongType { actual_value: value }),
        },
        JsonOpName::Null => match value {
            JsonValue::Bool(b) => result == Ok::<OpValTimestamp, JsonValError>(OpValTimestamp::Null(b)),
            _ => is_not_supported(result, op, value),
        },
        JsonOpName::Unknown => is_not_supported(result, op, value),
    }
}

fn timestamp_single(k: CmpKind, d: UtcDateTime) -> (r: OpValTimestamp)
    ensures
        r@ == single_op(k, d),
{
    match k {
        CmpKind::Eq => OpValTimestamp::Eq(d),
        CmpKind::Not => OpValTimestamp::Not(d),
        CmpKind::Lt => OpValTimestamp::Lt(d),
        CmpKind::Lte => OpValTimestamp::Lte(d),
        CmpKind::Gt => OpValTimestamp::Gt(d),
        CmpKind::Gte => OpValTimestamp::Gte(d),
    }
}

fn timestamp_list(k: ListKind, dts: Vec<UtcDateTime>) -> (r: OpValTimestamp)
    ensures
        r@ == list_op(k, dts@),
{
    match k {
        ListKind::In => OpValTimestamp::In(dts),
        ListKind::NotIn => OpValTimestamp::NotIn(dts),
    }
}

/// The date-time of a JSON string.
fn into_datetime(value: &JsonValue) -> (r: Result<UtcDateTime, JsonValError>)
    ensures
        r == match datetime_of_json(*value) {
            Some(d) => Ok::<UtcDateTime, JsonValError>(d),
            None => Err(JsonValError::JsonValNotOfType("DateTime<Utc>")),
        },
{
    match value {
        JsonValue::String(s) => match parse_datetime(s.as_str()) {
            Some(d) => Ok(d),
            None => Err(JsonValError::JsonValNotOfType("DateTime<Utc>")),
        },
        _ => Err(JsonValError::JsonValNotOfType("DateTime<Utc>")),
    }
}

/// The date-times of a list of JSON strings, or `None` when some item is not one.
fn into_datetimes(items: &Vec<JsonValue>) -> (r: Option<Vec<UtcDateTime>>)
    ensures
        match datetimes_of_json(items@) {
            Some(dts) => r matches Some(v) && v@ == dts,
            None => r is None,
        },
{
    let mut dts: Vec<UtcDateTime> = Vec::new();
    let mut i: usize = 0;
    while i < items.len()
        invariant
            i <= items@.len(),
            dts@.len() == i,
            forall|j: int| 0 <= j < i ==> datetime_of_json(items@[j]) == Some(#[trigger] dts@[j]),
        decreases items@.len() - i,
    {
        match into_datetime(&items[i]) {
            Ok(d) => dts.push(d),
            Err(_) => {
                assert(datetime_of_json(items@[i as int]) is None);
                return None;
            },
        }
        i = i + 1;
    }
    assert forall|j: int| 0 <= j < items@.len() implies (#[trigger] datetime_of_json(items@[j])) is Some by {
        assert(datetime_of_json(items@[j]) == Some(dts@[j]));
    }
    assert(dts@ =~= Seq::new(items@.len(), |j: int| datetime_of_json(items@[j])->0));
    Some(dts)
}

/// The value expression of a date-time in a node: the date-time as an SQL value, cast as the
/// options say.
pub open spec fn datetime_value_expr_of(d: UtcDateTime, o: FilterNodeOptions) -> Expr {
    value_expr_of(sea_datetime_value(d.seconds(), d.subsec_nanos()), o)
}

/// The condition on column `col` that an operator value over date-times
/// stands for: its plan (see `sea_plan_of`), each value as its value
/// expression, built for the column with the options' casts.
pub open spec fn datetime_condition_of(m: OpModel<UtcDateTime>, col: ColumnRef, o: FilterNodeOptions) -> Condition {
    plan_condition_of(map_plan(sea_plan_of(m), |x: UtcDateTime| datetime_value_expr_of(x, o)), col, o)
}

impl OpValTimestamp {
    /// Reads one JSON filter entry `{op: value}` over date-times.
    pub fn op_value_to_op_val_type(op: &str, value: JsonValue) -> (r: Result<Self, JsonValError>)
        ensures
            is_timestamp_op_value(op@, value, r),
    {
        match json_op_name(op) {
            JsonOpName::Single(k) => match into_datetime(&value) {
                Ok(d) => Ok(timestamp_single(k, d)),
                Err(e) => Err(e),
            },
            JsonOpName::List(k) => match value {
                JsonValue::Array(items) => match into_datetimes(&items) {
                    Some(dts) => Ok(timestamp_list(k, dts)),
                    None => Err(JsonValError::JsonValNotOfType("DateTime<Utc>")),
                },
                other => Err(JsonValError::JsonValArrayWrongType { actual_value: other }),
            },
            JsonOpName::Null => match value {
                JsonValue::Bool(b) => Ok(OpValTimestamp::Null(b)),
                other => not_supported(op, other),
            },
            JsonOpName::Unknown => not_supported(op, value),
        }
    }

    /// The condition plan of this operator value (see `sea_plan_of`).
    pub fn into_sea_cond_plan(self) -> (p: SeaCondPlan<UtcDateTime>)
        ensures
            p@ == sea_plan_of(self@),
    {
        match self {
            OpValTimestamp::Eq(d) => SeaCondPlan::Compare(SeaBinOp::Equal, d),
            OpValTimestamp::Not(d) => SeaCondPlan::Compare(SeaBinOp::NotEqual, d),
            OpValTimestamp::In(dts) => SeaCondPlan::CompareList(SeaBinOp::In, dts),
            OpValTimestamp::NotIn(dts) => SeaCondPlan::CompareList(SeaBinOp::NotIn, dts),
            OpValTimestamp::Lt(d) => SeaCondPlan::Compare(SeaBinOp::SmallerThan, d),
            OpValTimestamp::Lte(d) => SeaCondPlan::Compare(SeaBinOp::SmallerThanOrEqual, d),
            OpValTimestamp::Gt(d) => SeaCondPlan::Compare(SeaBinOp::GreaterThan, d),
            OpValTimestamp::Gte(d) => SeaCondPlan::Compare(SeaBinOp::GreaterThanOrEqual, d),
            OpValTimestamp::Null(b) => SeaCondPlan::IsNull(b),
        }
    }

    /// The `sea_query` condition on column `col` for this operator value,
    /// with the casts that `node_options` sets (see `into_sea_cond_plan`).
    pub fn into_sea_cond_expr(self, col: &ColumnRef, node_options: &FilterNodeOptions) -> (r: SeaResult<Condition>)
        ensures
            r == Ok::<Condition, IntoSeaError>(datetime_condition_of(self@, *col, *node_options)),
    {
        let plan = match self.into_sea_cond_plan() {
            SeaCondPlan::Compare(op, d) => SeaCondPlan::Compare(op, into_node_value_expr(sea_datetime_expr(d.timestamp(), d.timestamp_subsec_nanos()), node_options)),
            SeaCondPlan::CompareList(op, dts) => {
                let mut vxpr_list: Vec<Expr> = Vec::new();
                let mut i: usize = 0;
                while i < dts.len()
                    invariant
                        i <= dts@.len(),
                        vxpr_list@.len() == i,
                        forall|j: int| 0 <= j < i ==> #[trigger] vxpr_list@[j] == datetime_value_expr_of(dts@[j], *node_options),
                    decreases dts@.len() - i,
                {
                    let d = dts[i];
                    vxpr_list.push(into_node_value_expr(sea_datetime_expr(d.timestamp(), d.timestamp_subsec_nanos()), node_options));
                    i = i + 1;
                }
                assert(vxpr_list@ =~= dts@.map_values(|x: UtcDateTime| datetime_value_expr_of(x, *node_options)));
                SeaCondPlan::CompareList(op, vxpr_list)
            },
            SeaCondPlan::IsNull(b) => SeaCondPlan::IsNull(b),
        };
        Ok(plan_into_condition(plan, col, node_options))
    }
}

impl OpValsTimestamp {
    /// Reads one more JSON filter entry `{op: value}` into the list: on
    /// success its operator value is added at the end; on failure the list
    /// is left as it was and the entry's error is returned.
    pub fn push_entry(&mut self, op: &str, value: JsonValue) -> (r: Result<(), JsonValError>)
        ensures
            is_timestamp_op_value(op@, value, match r {
                Ok(_) => Ok::<OpValTimestamp, JsonValError>(final(self).0@.last()),
                Err(e) => Err(e),
            }),
            r is Ok ==> final(self).0@ == old(self).0@.push(final(self).0@.last()),
            r is Err ==> final(self).0@ == old(self).0@,
    {
        match OpValTimestamp::op_value_to_op_val_type(op, value) {
            Ok(ov) => {
                self.0.push(ov);
                Ok(())
            },
            Err(e) => Err(e),
        }
    }

    /// The operator values that a bare JSON string stands for: equality with
    /// the date-time it denotes, or `None` when it denotes none.
    pub fn from_datetime_text(v: &str) -> (r: Option<OpValsTimestamp>)
        ensures
            match datetime_text_parsed(v@) {
                Some(d) => r matches Some(ovs) && ovs@ == seq![OpModel::Eq(d)],
                None => r is None,
            },
    {
        match parse_datetime(v) {
            Some(d) => {
                let ovs = OpValsTimestamp(vec![OpValTimestamp::Eq(d)]);
                assert(ovs@ =~= seq![OpModel::Eq(d)]);
                Some(ovs)
            },
            None => None,
        }
    }
}

/// A bare JSON string filters as `{"$eq": string}` does: the entry reads
/// exactly when the text denotes a date-time, and then as equality with that
/// date-time (the same as the bare string's single operator value).
pub proof fn lemma_bare_datetime_text_is_eq(s: String, r: Result<OpValTimestamp, JsonValError>)
    requires
        is_timestamp_op_value("$eq"@, JsonValue::String(s), r),
    ensures
        r is Ok <==> datetime_text_parsed(s@) is Some,
        r matches Ok(ov) ==> ov@ == OpModel::Eq(datetime_text_parsed(s@)->0),
{
}

/// Each JSON operator name reads as its own operator: `$eq`, `$not`, `$lt`,
/// `$lte`, `$gt` and `$gte` compare with the date-time that the value denotes,
/// `$in` and `$notIn` with the list of those that an array denotes, and
/// `$null` takes its flag.
pub proof fn lemma_timestamp_json_names(op: Seq<char>, value: JsonValue, r: Result<OpValTimestamp, JsonValError>)
    requires
        is_timestamp_op_value(op, value, r),
    ensures
        datetime_of_json(value) is Some ==> {
            &&& (op == "$eq"@ ==> (r matches Ok(o) && o@ == OpModel::Eq(datetime_of_json(value)->0)))
            &&& (op == "$not"@ ==> (r matches Ok(o) && o@ == OpModel::Not(datetime_of_json(value)->0)))
            &&& (op == "$lt"@ ==> (r matches Ok(o) && o@ == OpModel::Lt(datetime_of_json(value)->0)))
            &&& (op == "$lte"@ ==> (r matches Ok(o) && o@ == OpModel::Lte(datetime_of_json(value)->0)))
            &&& (op == "$gt"@ ==> (r matches Ok(o) && o@ == OpModel::Gt(datetime_of_json(value)->0)))
            &&& (op == "$gte"@ ==> (r matches Ok(o) && o@ == OpModel::Gte(datetime_of_json(value)->0)))
        },
        (value is Array && datetimes_of_json(value->Array_0@) is Some) ==> {
            &&& (op == "$in"@ ==> (r matches Ok(o) && o@ == OpModel::In(datetimes_of_json(value->Array_0@)->0)))
            &&& (op == "$notIn"@ ==> (r matches Ok(o) && o@ == OpModel::NotIn(datetimes_of_json(value->Array_0@)->0)))
        },
        value is Bool ==> (op == "$null"@ ==> r == Ok::<OpValTimestamp, JsonValError>(OpValTimestamp::Null(value->Bool_0))),
{
    reveal_strlit("$eq");
    reveal_strlit("$not");
    reveal_strlit("$in");
    reveal_strlit("$notIn");
    reveal_strlit("$lt");
    reveal_strlit("$lte");
    reveal_strlit("$gt");
    reveal_strlit("$gte");
    reveal_strlit("$null");
    assert("$not"@ != "$eq"@) by { assert("$not"@.len() != "$eq"@.len()); }
    assert("$in"@ != "$eq"@) by { assert("$in"@[1] != "$eq"@[1]); }
    assert("$in"@ != "$not"@) by { assert("$in"@.len() != "$not"@.len()); }
    assert("$notIn"@ != "$eq"@) by { assert("$notIn"@.len() != "$eq"@.len()); }
    assert("$notIn"@ != "$not"@) by { assert("$notIn"@.len() != "$not"@.len()); }
    assert("$notIn"@ != "$in"@) by { assert("$notIn"@.len() != "$in"@.len()); }
    assert("$lt"@ != "$eq"@) by { assert("$lt"@[1] != "$eq"@[1]); }
    assert("$lt"@ != "$not"@) by { assert("$lt"@.len() != "$not"@.len()); }
    assert("$lt"@ != "$in"@) by { assert("$lt"@[1] != "$in"@[1]); }
    assert("$lt"@ != "$notIn"@) by { assert("$lt"@.len() != "$notIn"@.len()); }
    assert("$lte"@ != "$eq"@) by { assert("$lte"@.len() != "$eq"@.len()); }
    assert("$lte"@ != "$not"@) by { assert("$lte"@[1] != "$not"@[1]); }
    assert("$lte"@ != "$in"@) by { assert("$lte"@.len() != "$in"@.len()); }
    assert("$lte"@ != "$notIn"@) by { assert("$lte"@.len() != "$notIn"@.len()); }
    assert("$lte"@ != "$lt"@) by { assert("$lte"@.len() != "$lt"@.len()); }
    assert("$gt"@ != "$eq"@) by { assert("$gt"@[1] != "$eq"@[1]); }
    assert("$gt"@ != "$not"@) by { assert("$gt"@.len() != "$not"@.len()); }
    assert("$gt"@ != "$in"@) by { assert("$gt"@[1] != "$in"@[1]); }
    assert("$gt"@ != "$notIn"@) by { assert("$gt"@.len() != "$notIn"@.len()); }
    assert("$gt"@ != "$lt"@) by { assert("$gt"@[1] != "$lt"@[1]); }
    assert("$gt"@ != "$lte"@) by { assert("$gt"@.len() != "$lte"@.len()); }
    assert("$gte"@ != "$eq"@) by { assert("$gte"@.len() != "$eq"@.len()); }
    assert("$gte"@ != "$not"@) by { assert("$gte"@[1] != "$not"@[1]); }
    assert("$gte"@ != "$in"@) by { assert("$gte"@.len() != "$in"@.len()); }
    assert("$gte"@ != "$notIn"@) by { assert("$gte"@.len() != "$notIn"@.len()); }
    assert("$gte"@ != "$lt"@) by { assert("$gte"@.len() != "$lt"@.len()); }
    assert("$gte"@ != "$lte"@) by { assert("$gte"@[1] != "$lte"@[1]); }
    assert("$gte"@ != "$gt"@) by { assert("$gte"@.len() != "$gt"@.len()); }
    assert("$null"@ != "$eq"@) by { assert("$null"@.len() != "$eq"@.len()); }
    assert("$null"@ != "$not"@) by { assert("$null"@.len() != "$not"@.len()); }
    assert("$null"@ != "$in"@) by { assert("$null"@.len() != "$in"@.len()); }
    assert("$null"@ != "$notIn"@) by { assert("$null"@.len() != "$notIn"@.len()); }
    assert("$null"@ != "$lt"@) by { assert("$null"@.len() != "$lt"@.len()); }
    assert("$null"@ != "$lte"@) by { assert("$null"@.len() != "$lte"@.len()); }
    assert("$null"@ != "$gt"@) by { assert("$null"@.len() != "$gt"@.len()); }
    assert("$null"@ != "$gte"@) by { assert("$null"@.len() != "$gte"@.len()); }
    assert(json_op_name_of("$eq"@) == JsonOpName::Single(CmpKind::Eq));
    assert(json_op_name_of("$not"@) == JsonOpName::Single(CmpKind::Not));
    assert(json_op_name_of("$in"@) == JsonOpName::List(ListKind::In));
    assert(json_op_name_of("$notIn"@) == JsonOpName::List(ListKind::NotIn));
    assert(json_op_name_of("$lt"@) == JsonOpName::Single(CmpKind::Lt));
    assert(json_op_name_of("$lte"@) == JsonOpName::Single(CmpKind::Lte));
    assert(json_op_name_of("$gt"@) == JsonOpName::Single(CmpKind::Gt));
    assert(json_op_name_of("$gte"@) == JsonOpName::Single(CmpKind::Gte));
}

} // verus!
