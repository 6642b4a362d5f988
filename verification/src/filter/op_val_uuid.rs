//! Operator values over UUIDs: construction, parsing from JSON filters, and
//! the `sea_query` conditions built from them.

use crate::error::{is_not_supported, not_supported, JsonValError};
use crate::filter::{FilterNodeOptions, OpVal};
use crate::json::JsonValue;
use crate::op_model::{
    json_op_name, json_op_name_of, list_op, single_op, CmpKind, JsonOpName, ListKind,
    OpModel,
};
use crate::sea::{
    into_node_value_expr, map_plan, plan_condition_of, plan_into_condition, sea_plan_of, sea_uuid_expr,
    value_expr_of, sea_uuid_value, IntoSeaError, SeaBinOp, SeaCondPlan, SeaResult,
};
use crate::uuid_value::{uuid_parse_str, uuid_text_parsed, Uuid};
use sea_query::{ColumnRef, Condition, Expr};
use vstd::prelude::*;

verus! {

/// A list of operator values over UUIDs, as given for one filter field.
#[derive(Debug, Clone, PartialEq)]
pub struct OpValsUuid(pub Vec<OpValUuid>);

/// Operator values over UUIDs.
#[derive(Debug, Clone, PartialEq)]
pub enum OpValUuid {
    Eq(Uuid),
    Not(Uuid),
    In(Vec<Uuid>),
    NotIn(Vec<Uuid>),
    Lt(Uuid),
    Lte(Uuid),
    Gt(Uuid),
    Gte(Uuid),
    Null(bool),
}

impl View for OpValUuid {
    type V = OpModel<Uuid>;

    open spec fn view(&self) -> OpModel<Uuid> {
        match self {
            OpValUuid::Eq(v) => OpModel::Eq(*v),
            OpValUuid::Not(v) => OpModel::Not(*v),
            OpValUuid::In(vs) => OpModel::In(vs@),
            OpValUuid::NotIn(vs) => OpModel::NotIn(vs@),
            OpValUuid::Lt(v) => OpModel::Lt(*v),
            OpValUuid::Lte(v) => OpModel::Lte(*v),
            OpValUuid::Gt(v) => OpModel::Gt(*v),
            OpValUuid::Gte(v) => OpModel::Gte(*v),
            OpValUuid::Null(b) => OpModel::Null(*b),
        }
    }
}

impl View for OpValsUuid {
    type V = Seq<OpModel<Uuid>>;

    open spec fn view(&self) -> Seq<OpModel<Uuid>> {
        self.0@.map_values(|o: OpValUuid| o@)
    }
}

impl From<Uuid> for OpValUuid {
    fn from(val: Uuid) -> Self {
        OpValUuid::Eq(val)
    }
}

impl vstd::std_specs::convert::FromSpecImpl<Uuid> for OpValUuid {
    open spec fn obeys_from_spec() -> bool {
        true
    }

    open spec fn from_spec(v: Uuid) -> OpValUuid {
        OpValUuid::Eq(v)
    }
}

impl From<&Uuid> for OpValUuid {
    fn from(val: &Uuid) -> Self {
        OpValUuid::Eq(*val)
    }
}

impl vstd::std_specs::convert::FromSpecImpl<&Uuid> for OpValUuid {
    open spec fn obeys_from_spec() -> bool {
        true
    }

    open spec fn from_spec(v: &Uuid) -> OpValUuid {
        OpValUuid::Eq(*v)
    }
}

impl From<OpValUuid> for OpVal {
    fn from(val: OpValUuid) -> Self {
        OpVal::Uuid(val)
    }
}

impl vstd::std_specs::convert::FromSpecImpl<OpValUuid> for OpVal {
    open spec fn obeys_from_spec() -> bool {
        true
    }

    open spec fn from_spec(v: OpValUuid) -> OpVal {
        OpVal::Uuid(v)
    }
}

/// The UUID that a JSON value denotes: a string in one of the UUID text forms.
pub open spec fn uuid_of_json(v: JsonValue) -> Option<Uuid> {
    match v {
        JsonValue::String(s) => uuid_text_parsed(s@),
        _ => None,
    }
}

/// The UUIDs of a list of JSON values, when every item denotes one.
pub open spec fn uuids_of_json(items: Seq<JsonValue>) -> Option<Seq<Uuid>> {
    if forall|i: int| 0 <= i < items.len() ==> (#[trigger] uuid_of_json(items[i])) is Some {
        Some(Seq::new(items.len(), |i: int| uuid_of_json(items[i])->0))
    } else {
        None
    }
}

/// The operator value that a JSON filter entry `{op: value}` denotes over
/// UUIDs, as `result` must be: single-value operators take a UUID string,
/// `$in`/`$notIn` an array of them, `$null` a boolean.
pub open spec fn is_uuid_op_value(op: Seq<char>, value: JsonValue, result: Result<OpValUuid, JsonValError>) -> bool {
    match json_op_name_of(op) {
        JsonOpName::Single(k) => match uuid_of_json(value) {
            Some(u) => result matches Ok(ov) && ov@ == single_op(k, u),
            None => result == Err::<OpValUuid, JsonValError>(JsonValError::JsonValNotOfType("Uuid")),
        },
        JsonOpName::List(k) => match value {
            JsonValue::Array(items) => match uuids_of_json(items@) {
                Some(us) => result matches Ok(ov) && ov@ == list_op(k, us),
                None => result == Err::<OpValUuid, JsonValError>(JsonValError::JsonValNotOfType("Uuid")),
            },
            _ => result == Err::<OpValUuid, JsonValError>(JsonValError::JsonValArrayWrongType { actual_value: value }),
        },
        JsonOpName::Null => match value {
            JsonValue::Bool(b) => result == Ok::<OpValUuid, JsonValError>(OpValUuid::Null(b)),
            _ => is_not_supported(result, op, value),
        },
        JsonOpName::Unknown => is_not_supported(result, op, value),
    }
}

fn uuid_single(k: CmpKind, u: Uuid) -> (r: OpValUuid)
    ensures
        r@ == single_op(k, u),
{
    match k {
        CmpKind::Eq => OpValUuid::Eq(u),
        CmpKind::Not => OpValUuid::Not(u),
        CmpKind::Lt => OpValUuid::Lt(u),
        CmpKind::Lte => OpValUuid::Lte(u),
        CmpKind::Gt => OpValUuid::Gt(u),
        CmpKind::Gte => OpValUuid::Gte(u),
    }
}

fn uuid_list(k: ListKind, us: Vec<Uuid>) -> (r: OpValUuid)
    ensures
        r@ == list_op(k, us@),
{
    match k {
        ListKind::In => OpValUuid::In(us),
        ListKind::NotIn => OpValUuid::NotIn(us),
    }
}

/// The UUID of a JSON string.
fn into_uuid(value: &JsonValue) -> (r: Result<Uuid, JsonValError>)
    ensures
        r == match uuid_of_json(*value) {
            Some(u) => Ok::<Uuid, JsonValError>(u),
            None => Err(JsonValError::JsonValNotOfType("Uuid")),
        },
{
    match value {
        JsonValue::String(s) => match uuid_parse_str(s.as_str()) {
            Some(u) => Ok(u),
            None => Err(JsonValError::JsonValNotOfType("Uuid")),
        },
        _ => Err(JsonValError::JsonValNotOfType("Uuid")),
    }
}

/// The UUIDs of a list of JSON strings, or `None` when some item is not one.
fn into_uuids(items: &Vec<JsonValue>) -> (r: Option<Vec<Uuid>>)
    ensures
        match uuids_of_json(items@) {
            Some(us) => r matches Some(v) && v@ == us,
            None => r is None,
        },
{
    let mut uuids: Vec<Uuid> = Vec::new();
    let mut i: usize = 0;
    while i < items.len()
        invariant
            i <= items@.len(),
            uuids@.len() == i,
            forall|j: int| 0 <= j < i ==> uuid_of_json(items@[j]) == Some(#[trigger] uuids@[j]),
        decreases items@.len() - i,
    {
        match into_uuid(&items[i]) {
            Ok(u) => uuids.push(u),
            Err(_) => {
                assert(uuid_of_json(items@[i as int]) is None);
                return None;
            },
        }
        i = i + 1;
    }
    assert forall|j: int| 0 <= j < items@.len() implies (#[trigger] uuid_of_json(items@[j])) is Some by {
        assert(uuid_of_json(items@[j]) == Some(uuids@[j]));
    }
    assert(uuids@ =~= Seq::new(items@.len(), |j: int| uuid_of_json(items@[j])->0));
    Some(uuids)
}

/// The value expression of a UUID in a node: the UUID as an SQL value, cast as the
/// options say.
pub open spec fn uuid_value_expr_of(u: Uuid, o: FilterNodeOptions) -> Expr {
    value_expr_of(sea_uuid_value(u.0), o)
}

/// The condition on column `col` that an operator value over UUIDs
/// stands for: its plan (see `sea_plan_of`), each value as its value
/// expression, built for the column with the options' casts.
pub open spec fn uuid_condition_of(m: OpModel<Uuid>, col: ColumnRef, o: FilterNodeOptions) -> Condition {
    plan_condition_of(map_plan(sea_plan_of(m), |x: Uuid| uuid_value_expr_of(x, o)), col, o)
}

impl OpValUuid {
    /// Reads one JSON filter entry `{op: value}` over UUIDs.
    pub fn op_value_to_op_val_type(op: &str, value: JsonValue) -> (r: Result<Self, JsonValError>)
        ensures
            is_uuid_op_value(op@, value, r),
    {
        match json_op_name(op) {
            JsonOpName::Single(k) => match into_uuid(&value) {
                Ok(u) => Ok(uuid_single(k, u)),
                Err(e) => Err(e),
            },
            JsonOpName::List(k) => match value {
                JsonValue::Array(items) => match into_uuids(&items) {
                    Some(us) => Ok(uuid_list(k, us)),
                    None => Err(JsonValError::JsonValNotOfType("Uuid")),
                },
                other => Err(JsonValError::JsonValArrayWrongType { actual_value: other }),
            },
            JsonOpName::Null => match value {
                JsonValue::Bool(b) => Ok(OpValUuid::Null(b)),
                other => not_supported(op, other),
            },
            JsonOpName::Unknown => not_supported(op, value),
        }
    }

    /// The condition plan of this operator value (see `sea_plan_of`).
    pub fn into_sea_cond_plan(self) -> (p: SeaCondPlan<Uuid>)
        ensures
            p@ == sea_plan_of(self@),
    {
        match self {
            OpValUuid::Eq(u) => SeaCondPlan::Compare(SeaBinOp::Equal, u),
            OpValUuid::Not(u) => SeaCondPlan::Compare(SeaBinOp::NotEqual, u),
            OpValUuid::In(us) => SeaCondPlan::CompareList(SeaBinOp::In, us),
            OpValUuid::NotIn(us) => SeaCondPlan::CompareList(SeaBinOp::NotIn, us),
            OpValUuid::Lt(u) => SeaCondPlan::Compare(SeaBinOp::SmallerThan, u),
            OpValUuid::Lte(u) => SeaCondPlan::Compare(SeaBinOp::SmallerThanOrEqual, u),
            OpValUuid::Gt(u) => SeaCondPlan::Compare(SeaBinOp::GreaterThan, u),
            OpValUuid::Gte(u) => SeaCondPlan::Compare(SeaBinOp::GreaterThanOrEqual, u),
            OpValUuid::Null(b) => SeaCondPlan::IsNull(b),
        }
    }

    /// The `sea_query` condition on column `col` for this operator value,
    /// with the casts that `node_options` sets (see `into_sea_cond_plan`).
    pub fn into_sea_cond_expr(self, col: &ColumnRef, node_options: &FilterNodeOptions) -> (r: SeaResult<Condition>)
        ensures
            r == Ok::<Condition, IntoSeaError>(uuid_condition_of(self@, *col, *node_options)),
    {
        let plan = match self.into_sea_cond_plan() {
            SeaCondPlan::Compare(op, u) => SeaCondPlan::Compare(op, into_node_value_expr(sea_uuid_expr(u), node_options)),
            SeaCondPlan::CompareList(op, us) => {
                let mut vxpr_list: Vec<Expr> = Vec::new();
                let mut i: usize = 0;
                while i < us.len()
                    invariant
                        i <= us@.len(),
                        vxpr_list@.len() == i,
                        forall|j: int| 0 <= j < i ==> #[trigger] vxpr_list@[j] == uuid_value_expr_of(us@[j], *node_options),
                    decreases us@.len() - i,
                {
                    vxpr_list.push(into_node_value_expr(sea_uuid_expr(us[i]), node_options));
                    i = i + 1;
                }
                assert(vxpr_list@ =~= us@.map_values(|x: Uuid| uuid_value_expr_of(x, *node_options)));
                SeaCondPlan::CompareList(op, vxpr_list)
            },
            SeaCondPlan::IsNull(b) => SeaCondPlan::IsNull(b),
        };
        Ok(plan_into_condition(plan, col, node_options))
    }
}

impl OpValsUuid {
    /// Reads one more JSON filter entry `{op: value}` into the list: on
    /// success its operator value is added at the end; on failure the list
    /// is left as it was and the entry's error is returned.
    pub fn push_entry(&mut self, op: &str, value: JsonValue) -> (r: Result<(), JsonValError>)
        ensures
            is_uuid_op_value(op@, value, match r {
                Ok(_) => Ok::<OpValUuid, JsonValError>(final(self).0@.last()),
                Err(e) => Err(e),
            }),
            r is Ok ==> final(self).0@ == old(self).0@.push(final(self).0@.last()),
            r is Err ==> final(self).0@ == old(self).0@,
    {
        match OpValUuid::op_value_to_op_val_type(op, value) {
            Ok(ov) => {
                self.0.push(ov);
                Ok(())
            },
            Err(e) => Err(e),
        }
    }

    /// The operator values that a bare JSON string stands for: equality with
    /// the UUID it denotes, or `None` when it denotes none.
    pub fn from_uuid_text(v: &str) -> (r: Option<OpValsUuid>)
        ensures
            match uuid_text_parsed(v@) {
                Some(u) => r matches Some(ovs) && ovs@ == seq![OpModel::Eq(u)],
                None => r is None,
            },
    {
        match uuid_parse_str(v) {
            Some(u) => {
                let ovs = OpValsUuid(vec![OpValUuid::Eq(u)]);
                assert(ovs@ =~= seq![OpModel::Eq(u)]);
                Some(ovs)
            },
            None => None,
        }
    }
}

/// A bare JSON string filters as `{"$eq": string}` does: the entry reads
/// exactly when the text denotes a UUID, and then as equality with that
/// UUID (the same as the bare string's single operator value).
pub proof fn lemma_bare_uuid_text_is_eq(s: String, r: Result<OpValUuid, JsonValError>)
    requires
        is_uuid_op_value("$eq"@, JsonValue::String(s), r),
    ensures
        r is Ok <==> uuid_text_parsed(s@) is Some,
        r matches Ok(ov) ==> ov@ == OpModel::Eq(uuid_text_parsed(s@)->0),
{
}

/// Each JSON operator name reads as its own operator: `$eq`, `$not`, `$lt`,
/// `$lte`, `$gt` and `$gte` compare with the UUID that the value denotes,
/// `$in` and `$notIn` with the list of those that an array denotes, and
/// `$null` takes its flag.
pub proof fn lemma_uuid_json_names(op: Seq<char>, value: JsonValue, r: Result<OpValUuid, JsonValError>)
    requires
        is_uuid_op_value(op, value, r),
    ensures
        uuid_of_json(value) is Some ==> {
            &&& (op == "$eq"@ ==> (r matches Ok(o) && o@ == OpModel::Eq(uuid_of_json(value)->0)))
            &&& (op == "$not"@ ==> (r matches Ok(o) && o@ == OpModel::Not(uuid_of_json(value)->0)))
            &&& (op == "$lt"@ ==> (r matches Ok(o) && o@ == OpModel::Lt(uuid_of_json(value)->0)))
            &&& (op == "$lte"@ ==> (r matches Ok(o) && o@ == OpModel::Lte(uuid_of_json(value)->0)))
            &&& (op == "$gt"@ ==> (r matches Ok(o) && o@ == OpModel::Gt(uuid_of_json(value)->0)))
            &&& (op == "$gte"@ ==> (r matches Ok(o) && o@ == OpModel::Gte(uuid_of_json(value)->0)))
        },
        (value is Array && uuids_of_json(value->Array_0@) is Some) ==> {
            &&& (op == "$in"@ ==> (r matches Ok(o) && o@ == OpModel::In(uuids_of_json(value->Array_0@)->0)))
            &&& (op == "$notIn"@ ==> (r matches Ok(o) && o@ == OpModel::NotIn(uuids_of_json(value->Array_0@)->0)))
        },
        value is Bool ==> (op == "$null"@ ==> r == Ok::<OpValUuid, JsonValError>(OpValUuid::Null(value->Bool_0))),
{
    reveal_strlit("$eq");
    reveal_strlit("$not");
    reveal_strlit("$in");
    reveal_strlit("$notIn");
    reveal_strlit("$lt");
    reveal_strlit("$lte");
    reveal_strlit("$gt");
    reveal_strlit("$gte");
    reveal_strlit("$null");
    assert("$not"@ != "$eq"@) by { assert("$not"@.len() != "$eq"@.len()); }
    assert("$in"@ != "$eq"@) by { assert("$in"@[1] != "$eq"@[1]); }
    assert("$in"@ != "$not"@) by { assert("$in"@.len() != "$not"@.len()); }
    assert("$notIn"@ != "$eq"@) by { assert("$notIn"@.len() != "$eq"@.len()); }
    assert("$notIn"@ != "$not"@) by { assert("$notIn"@.len() != "$not"@.len()); }
    assert("$notIn"@ != "$in"@) by { assert("$notIn"@.len() != "$in"@.len()); }
    assert("$lt"@ != "$eq"@) by { assert("$lt"@[1] != "$eq"@[1]); }
    assert("$lt"@ != "$not"@) by { assert("$lt"@.len() != "$not"@.len()); }
    assert("$lt"@ != "$in"@) by { assert("$lt"@[1] != "$in"@[1]); }
    assert("$lt"@ != "$notIn"@) by { assert("$lt"@.len() != "$notIn"@.len()); }
    assert("$lte"@ != "$eq"@) by { assert("$lte"@.len() != "$eq"@.len()); }
    assert("$lte"@ != "$not"@) by { assert("$lte"@[1] != "$not"@[1]); }
    assert("$lte"@ != "$in"@) by { assert("$lte"@.len() != "$in"@.len()); }
    assert("$lte"@ != "$notIn"@) by { assert("$lte"@.len() != "$notIn"@.len()); }
    assert("$lte"@ != "$lt"@) by { assert("$lte"@.len() != "$lt"@.len()); }
    assert("$gt"@ != "$eq"@) by { assert("$gt"@[1] != "$eq"@[1]); }
    assert("$gt"@ != "$not"@) by { assert("$gt"@.len() != "$not"@.len()); }
    assert("$gt"@ != "$in"@) by { assert("$gt"@[1] != "$in"@[1]); }
    assert("$gt"@ != "$notIn"@) by { assert("$gt"@.len() != "$notIn"@.len()); }
    assert("$gt"@ != "$lt"@) by { assert("$gt"@[1] != "$lt"@[1]); }
    assert("$gt"@ != "$lte"@) by { assert("$gt"@.len() != "$lte"@.len()); }
    assert("$gte"@ != "$eq"@) by { assert("$gte"@.len() != "$eq"@.len()); }
    assert("$gte"@ != "$not"@) by { assert("$gte"@[1] != "$not"@[1]); }
    assert("$gte"@ != "$in"@) by { assert("$gte"@.len() != "$in"@.len()); }
    assert("$gte"@ != "$notIn"@) by { assert("$gte"@.len() != "$notIn"@.len()); }
    assert("$gte"@ != "$lt"@) by { assert("$gte"@.len() != "$lt"@.len()); }
    assert("$gte"@ != "$lte"@) by { assert("$gte"@[1] != "$lte"@[1]); }
    assert("$gte"@ != "$gt"@) by { assert("$gte"@.len() != "$gt"@.len()); }
    assert("$null"@ != "$eq"@) by { assert("$null"@.len() != "$eq"@.len()); }
    assert("$null"@ != "$not"@) by { assert("$null"@.len() != "$not"@.len()); }
    assert("$null"@ != "$in"@) by { assert("$null"@.len() != "$in"@.len()); }
    assert("$null"@ != "$notIn"@) by { assert("$null"@.len() != "$notIn"@.len()); }
    assert("$null"@ != "$lt"@) by { assert("$null"@.len() != "$lt"@.len()); }
    assert("$null"@ != "$lte"@) by { assert("$null"@.len() != "$lte"@.len()); }
    assert("$null"@ != "$gt"@) by { assert("$null"@.len() != "$gt"@.len()); }
    assert("$null"@ != "$gte"@) by { assert("$null"@.len() != "$gte"@.len()); }
    assert(json_op_name_of("$eq"@) == JsonOpName::Single(CmpKind::Eq));
    assert(json_op_name_of("$not"@) == JsonOpName::Single(CmpKind::Not));
    assert(json_op_name_of("$in"@) == JsonOpName::List(ListKind::In));
    assert(json_op_name_of("$notIn"@) == JsonOpName::List(ListKind::NotIn));
    assert(json_op_name_of("$lt"@) == JsonOpName::Single(CmpKind::Lt));
    assert(json_op_name_of("$lte"@) == JsonOpName::Single(CmpKind::Lte));
    assert(json_op_name_of("$gt"@) == JsonOpName::Single(CmpKind::Gt));
    assert(json_op_name_of("$gte"@) == JsonOpName::Single(CmpKind::Gte));
}

} // verus!
