//! Conversions from the protobuf messages into filter types (inbound), and of
//! timestamp operator values back into messages.

use crate::filter::{
    no_cast_options, FilterGroup, FilterGroups, FilterNode, FilterNodeModel, FilterNodeOptions,
    ListOptions, ListOptionsModel, OpVal, OrderByModel, OpValBool, OpValFloat64, OpValInt32, OpValInt64,
    OpValModel, OpValString, OpValTimestamp, OpValUuid, OpValValue, OrderBy, OrderBys,
};
use crate::{proto_op_val, proto_op_val_bool, proto_op_val_float64, proto_op_val_int32,
    proto_op_val_int64, proto_op_val_json_value, proto_op_val_string, proto_op_val_timestamp,
    proto_op_val_uuid, proto_order_by};
use crate::{
    ProtoConversionError, ProtoFilterGroup, ProtoFilterGroups, ProtoFilterNode,
    ProtoFilterNodeOptions, ProtoListOptions, ProtoOpVal, ProtoOpValBool, ProtoOpValFloat64,
    ProtoOpValInt32, ProtoOpValInt64, ProtoOpValJsonValue, ProtoOpValString, ProtoOpValTimestamp,
    ProtoOpValUuid, ProtoOrderBy, ProtoOrderBys, ProtoTimestamp, TimestampList,
};
use crate::json::{json_from_str, json_text_parsed};
use crate::op_model::{list_of, ok_view, single_of, CmpKind, ListKind, OpModel};
use crate::time::{timestamp_in_range, UtcDateTime};
use crate::uuid_value::{
    base64url_nopad_decoded, be_bytes_value, decode_base64url_nopad, encode_base64url_nopad_uuid,
    uuid_base64url_text, uuid_from_slice, Uuid,
};
use vstd::prelude::*;

verus! {

// -- Sequences converted item by item

/// Converts the items of `s` in order with `f`; the first item that fails
/// gives the error.
pub open spec fn convert_all<A, B, E>(s: Seq<A>, f: spec_fn(A) -> Result<B, E>) -> Result<Seq<B>, E>
    decreases s.len(),
{
    if s.len() == 0 {
        Ok(Seq::empty())
    } else {
        match convert_all(s.drop_last(), f) {
            Err(e) => Err(e),
            Ok(bs) => match f(s.last()) {
                Ok(b) => Ok(bs.push(b)),
                Err(e) => Err(e),
            },
        }
    }
}

/// Converting one more item: the prefix of length `i + 1` after the prefix of length `i`.
pub proof fn lemma_convert_all_step<A, B, E>(s: Seq<A>, f: spec_fn(A) -> Result<B, E>, i: int)
    requires
        0 <= i < s.len(),
    ensures
        convert_all(s.take(i + 1), f) == match convert_all(s.take(i), f) {
            Err(e) => Err(e),
            Ok(bs) => match f(s[i]) {
                Ok(b) => Ok(bs.push(b)),
                Err(e) => Err(e),
            },
        },
{
    assert(s.take(i + 1).drop_last() =~= s.take(i));
}

/// Once a prefix fails, the whole sequence fails with the same error.
pub proof fn lemma_convert_all_prefix_err<A, B, E>(s: Seq<A>, f: spec_fn(A) -> Result<B, E>, k: int)
    requires
        0 <= k <= s.len(),
        convert_all(s.take(k), f) is Err,
    ensures
        convert_all(s, f) == convert_all(s.take(k), f),
    decreases s.len() - k,
{
    if k < s.len() {
        lemma_convert_all_step(s, f, k);
        lemma_convert_all_prefix_err(s, f, k + 1);
    } else {
        assert(s.take(k) =~= s);
    }
}

/// A successful conversion of a sequence has one result per item, each the
/// conversion of that item; and a sequence whose items all convert converts.
pub proof fn lemma_convert_all_ok<A, B, E>(s: Seq<A>, f: spec_fn(A) -> Result<B, E>)
    ensures
        convert_all(s, f) is Ok <==> forall|i: int| 0 <= i < s.len() ==> (#[trigger] f(s[i])) is Ok,
        convert_all(s, f) is Ok ==> {
            &&& convert_all(s, f)->Ok_0.len() == s.len()
            &&& forall|i: int| 0 <= i < s.len() ==> f(s[i]) == Ok::<B, E>(#[trigger] convert_all(s, f)->Ok_0[i])
        },
    decreases s.len(),
{
    if s.len() > 0 {
        let init = s.drop_last();
        lemma_convert_all_ok(init, f);
        assert forall|i: int| 0 <= i < init.len() implies init[i] == s[i] by {}
        if convert_all(s, f) is Ok {
            assert(f(s[s.len() - 1]) is Ok);
        }
        if forall|i: int| 0 <= i < s.len() ==> (#[trigger] f(s[i])) is Ok {
            assert forall|i: int| 0 <= i < init.len() implies (#[trigger] f(init[i])) is Ok by {
                assert(f(s[i]) is Ok);
            }
            assert(f(s[s.len() - 1]) is Ok);
        }
    }
}

/// A failed conversion of a sequence fails with the error of its first item
/// that does not convert.
pub proof fn lemma_convert_all_err<A, B, E>(s: Seq<A>, f: spec_fn(A) -> Result<B, E>)
    ensures
        convert_all(s, f) is Err ==> exists|k: int| {
            &&& 0 <= k < s.len()
            &&& #[trigger] f(s[k]) is Err
            &&& convert_all(s, f) == Err::<Seq<B>, E>(f(s[k])->Err_0)
            &&& forall|j: int| 0 <= j < k ==> (#[trigger] f(s[j])) is Ok
        },
    decreases s.len(),
{
    if s.len() > 0 {
        let init = s.drop_last();
        lemma_convert_all_err(init, f);
        if convert_all(init, f) is Err {
            let k = choose|k: int| {
                &&& 0 <= k < init.len()
                &&& #[trigger] f(init[k]) is Err
                &&& convert_all(init, f) == Err::<Seq<B>, E>(f(init[k])->Err_0)
                &&& forall|j: int| 0 <= j < k ==> (#[trigger] f(init[j])) is Ok
            };
            assert(init[k] == s[k]);
            assert forall|j: int| 0 <= j < k implies (#[trigger] f(s[j])) is Ok by {
                assert(init[j] == s[j]);
            }
        } else if convert_all(s, f) is Err {
            lemma_convert_all_ok(init, f);
            let k = s.len() - 1;
            assert forall|j: int| 0 <= j < k implies (#[trigger] f(s[j])) is Ok by {
                assert(init[j] == s[j]);
            }
            assert(f(s[k]) is Err);
        }
    }
}

// -- FilterNodeOptions

/// The options that a proto message carries; absent options set no cast.
pub open spec fn options_of(p: Option<ProtoFilterNodeOptions>) -> FilterNodeOptions {
    match p {
        Some(o) => FilterNodeOptions { cast_as: o.cast_as, cast_column_as: o.cast_column_as },
        None => no_cast_options(),
    }
}

impl FilterNodeOptions {
    /// The options of the message, field for field.
    pub fn from(p: ProtoFilterNodeOptions) -> (r: FilterNodeOptions)
        ensures
            r == options_of(Some(p)),
    {
        FilterNodeOptions { cast_as: p.cast_as, cast_column_as: p.cast_column_as }
    }
}

// -- ListOptions, OrderBys, OrderBy

/// The order of a proto order-by; an absent direction is ascending on the
/// empty column name.
pub open spec fn order_by_of(p: ProtoOrderBy) -> OrderByModel {
    match p.direction {
        Some(proto_order_by::Direction::Asc(col)) => OrderByModel::Asc(col@),
        Some(proto_order_by::Direction::Desc(col)) => OrderByModel::Desc(col@),
        None => OrderByModel::Asc(Seq::empty()),
    }
}

/// The order-bys of a proto message, one for each of its order-bys, in order.
pub open spec fn order_bys_of(p: ProtoOrderBys) -> Seq<OrderByModel> {
    p.order_bys@.map_values(|o: ProtoOrderBy| order_by_of(o))
}

/// The list options of a proto message: limit and offset as they are, and
/// the order-bys converted one by one when present.
pub open spec fn list_options_of(p: ProtoListOptions) -> ListOptionsModel {
    ListOptionsModel {
        limit: p.limit,
        offset: p.offset,
        order_bys: match p.order_bys {
            Some(obs) => Some(order_bys_of(obs)),
            None => None,
        },
    }
}

impl ListOptions {
    /// The list options of a proto message (see `list_options_of`).
    pub fn from(p: ProtoListOptions) -> (r: ListOptions)
        ensures
            r@ == list_options_of(p),
    {
        let order_bys = match p.order_bys {
            Some(obs) => Some(OrderBys::from(obs)),
            None => None,
        };
        ListOptions { limit: p.limit, offset: p.offset, order_bys }
    }
}

impl OrderBys {
    /// The order-bys of a proto message (see `order_bys_of`).
    pub fn from(p: ProtoOrderBys) -> (r: OrderBys)
        ensures
            r@ == order_bys_of(p),
    {
        let ghost ps = p.order_bys@;
        let mut order_bys: Vec<OrderBy> = Vec::new();
        for po in it: p.order_bys.into_iter()
            invariant
                it.seq() == ps,
                order_bys@.len() == it.index(),
                forall|j: int| 0 <= j < it.index() ==> (#[trigger] order_bys@[j])@ == order_by_of(ps[j]),
        {
            order_bys.push(OrderBy::from(po));
        }
        let r = OrderBys::new(order_bys);
        assert(r@ =~= order_bys_of(p));
        r
    }
}

impl OrderBy {
    /// The order of a proto order-by (see `order_by_of`).
    pub fn from(p: ProtoOrderBy) -> (r: OrderBy)
        ensures
            r@ == order_by_of(p),
    {
        match p.direction {
            Some(proto_order_by::Direction::Asc(col)) => OrderBy::Asc(col),
            Some(proto_order_by::Direction::Desc(col)) => OrderBy::Desc(col),
            None => OrderBy::Asc(String::new()),
        }
    }
}

// -- OpValString, OpValInt64, OpValInt32, OpValFloat64, OpValBool: one for one

/// The string operator value of a proto operator.
pub open spec fn op_val_string_of(op: proto_op_val_string::Op) -> OpValString {
    match op {
        proto_op_val_string::Op::Eq(v) => OpValString::Eq(v),
        proto_op_val_string::Op::Not(v) => OpValString::Not(v),
        proto_op_val_string::Op::In(l) => OpValString::In(l.values),
        proto_op_val_string::Op::NotIn(l) => OpValString::NotIn(l.values),
        proto_op_val_string::Op::Lt(v) => OpValString::Lt(v),
        proto_op_val_string::Op::Lte(v) => OpValString::Lte(v),
        proto_op_val_string::Op::Gt(v) => OpValString::Gt(v),
        proto_op_val_string::Op::Gte(v) => OpValString::Gte(v),
        proto_op_val_string::Op::Contains(v) => OpValString::Contains(v),
        proto_op_val_string::Op::NotContains(v) => OpValString::NotContains(v),
        proto_op_val_string::Op::ContainsAny(l) => OpValString::ContainsAny(l.values),
        proto_op_val_string::Op::NotContainsAny(l) => OpValString::NotContainsAny(l.values),
        proto_op_val_string::Op::ContainsAll(l) => OpValString::ContainsAll(l.values),
        proto_op_val_string::Op::StartsWith(v) => OpValString::StartsWith(v),
        proto_op_val_string::Op::NotStartsWith(v) => OpValString::NotStartsWith(v),
        proto_op_val_string::Op::StartsWithAny(l) => OpValString::StartsWithAny(l.values),
        proto_op_val_string::Op::NotStartsWithAny(l) => OpValString::NotStartsWithAny(l.values),
        proto_op_val_string::Op::EndsWith(v) => OpValString::EndsWith(v),
        proto_op_val_string::Op::NotEndsWith(v) => OpValString::NotEndsWith(v),
        proto_op_val_string::Op::EndsWithAny(l) => OpValString::EndsWithAny(l.values),
        proto_op_val_string::Op::NotEndsWithAny(l) => OpValString::NotEndsWithAny(l.values),
        proto_op_val_string::Op::Empty(v) => OpValString::Empty(v),
        proto_op_val_string::Op::Null(v) => OpValString::Null(v),
        proto_op_val_string::Op::ContainsCi(v) => OpValString::ContainsCi(v),
        proto_op_val_string::Op::NotContainsCi(v) => OpValString::NotContainsCi(v),
        proto_op_val_string::Op::StartsWithCi(v) => OpValString::StartsWithCi(v),
        proto_op_val_string::Op::NotStartsWithCi(v) => OpValString::NotStartsWithCi(v),
        proto_op_val_string::Op::EndsWithCi(v) => OpValString::EndsWithCi(v),
        proto_op_val_string::Op::NotEndsWithCi(v) => OpValString::NotEndsWithCi(v),
        proto_op_val_string::Op::Ilike(v) => OpValString::Ilike(v),
    }
}

/// The string operator value of a proto message; an absent operator is an error.
pub open spec fn op_val_string_result(p: ProtoOpValString) -> Result<OpValString, ProtoConversionError> {
    match p.op {
        Some(op) => Ok(op_val_string_of(op)),
        None => Err(ProtoConversionError::MissingField("OpValString.op")),
    }
}

impl OpValString {
    /// The string operator value of a proto message (see `op_val_string_result`).
    pub fn try_from(p: ProtoOpValString) -> (r: Result<OpValString, ProtoConversionError>)
        ensures
            r == op_val_string_result(p),
    {
        match p.op {
            Some(proto_op_val_string::Op::Eq(v)) => Ok(OpValString::Eq(v)),
            Some(proto_op_val_string::Op::Not(v)) => Ok(OpValString::Not(v)),
            Some(proto_op_val_string::Op::In(l)) => Ok(OpValString::In(l.values)),
            Some(proto_op_val_string::Op::NotIn(l)) => Ok(OpValString::NotIn(l.values)),
            Some(proto_op_val_string::Op::Lt(v)) => Ok(OpValString::Lt(v)),
            Some(proto_op_val_string::Op::Lte(v)) => Ok(OpValString::Lte(v)),
            Some(proto_op_val_string::Op::Gt(v)) => Ok(OpValString::Gt(v)),
            Some(proto_op_val_string::Op::Gte(v)) => Ok(OpValString::Gte(v)),
            Some(proto_op_val_string::Op::Contains(v)) => Ok(OpValString::Contains(v)),
            Some(proto_op_val_string::Op::NotContains(v)) => Ok(OpValString::NotContains(v)),
            Some(proto_op_val_string::Op::ContainsAny(l)) => Ok(OpValString::ContainsAny(l.values)),
            Some(proto_op_val_string::Op::NotContainsAny(l)) => Ok(OpValString::NotContainsAny(l.values)),
            Some(proto_op_val_string::Op::ContainsAll(l)) => Ok(OpValString::ContainsAll(l.values)),
            Some(proto_op_val_string::Op::StartsWith(v)) => Ok(OpValString::StartsWith(v)),
            Some(proto_op_val_string::Op::NotStartsWith(v)) => Ok(OpValString::NotStartsWith(v)),
            Some(proto_op_val_string::Op::StartsWithAny(l)) => Ok(OpValString::StartsWithAny(l.values)),
            Some(proto_op_val_string::Op::NotStartsWithAny(l)) => Ok(OpValString::NotStartsWithAny(l.values)),
            Some(proto_op_val_string::Op::EndsWith(v)) => Ok(OpValString::EndsWith(v)),
            Some(proto_op_val_string::Op::NotEndsWith(v)) => Ok(OpValString::NotEndsWith(v)),
            Some(proto_op_val_string::Op::EndsWithAny(l)) => Ok(OpValString::EndsWithAny(l.values)),
            Some(proto_op_val_string::Op::NotEndsWithAny(l)) => Ok(OpValString::NotEndsWithAny(l.values)),
            Some(proto_op_val_string::Op::Empty(v)) => Ok(OpValString::Empty(v)),
            Some(proto_op_val_string::Op::Null(v)) => Ok(OpValString::Null(v)),
            Some(proto_op_val_string::Op::ContainsCi(v)) => Ok(OpValString::ContainsCi(v)),
            Some(proto_op_val_string::Op::NotContainsCi(v)) => Ok(OpValString::NotContainsCi(v)),
            Some(proto_op_val_string::Op::StartsWithCi(v)) => Ok(OpValString::StartsWithCi(v)),
            Some(proto_op_val_string::Op::NotStartsWithCi(v)) => Ok(OpValString::NotStartsWithCi(v)),
            Some(proto_op_val_string::Op::EndsWithCi(v)) => Ok(OpValString::EndsWithCi(v)),
            Some(proto_op_val_string::Op::NotEndsWithCi(v)) => Ok(OpValString::NotEndsWithCi(v)),
            Some(proto_op_val_string::Op::Ilike(v)) => Ok(OpValString::Ilike(v)),
            None => Err(ProtoConversionError::MissingField("OpValString.op")),
        }
    }
}

/// The operator value of a proto message; an absent operator is an error.
pub open spec fn proto_op_val_int64_result(p: ProtoOpValInt64) -> Result<OpValInt64, ProtoConversionError> {
    match p.op {
        Some(proto_op_val_int64::Op::Eq(v)) => Ok(OpValInt64::Eq(v)),
        Some(proto_op_val_int64::Op::Not(v)) => Ok(OpValInt64::Not(v)),
        Some(proto_op_val_int64::Op::In(l)) => Ok(OpValInt64::In(l.values)),
        Some(proto_op_val_int64::Op::NotIn(l)) => Ok(OpValInt64::NotIn(l.values)),
        Some(proto_op_val_int64::Op::Lt(v)) => Ok(OpValInt64::Lt(v)),
        Some(proto_op_val_int64::Op::Lte(v)) => Ok(OpValInt64::Lte(v)),
        Some(proto_op_val_int64::Op::Gt(v)) => Ok(OpValInt64::Gt(v)),
        Some(proto_op_val_int64::Op::Gte(v)) => Ok(OpValInt64::Gte(v)),
        Some(proto_op_val_int64::Op::Null(v)) => Ok(OpValInt64::Null(v)),
        None => Err(ProtoConversionError::MissingField("OpValInt64.op")),
    }
}

impl OpValInt64 {
    /// The operator value of a proto message (see `proto_op_val_int64_result`).
    pub fn try_from(p: ProtoOpValInt64) -> (r: Result<OpValInt64, ProtoConversionError>)
        ensures
            r == proto_op_val_int64_result(p),
    {
        match p.op {
            Some(proto_op_val_int64::Op::Eq(v)) => Ok(OpValInt64::Eq(v)),
            Some(proto_op_val_int64::Op::Not(v)) => Ok(OpValInt64::Not(v)),
            Some(proto_op_val_int64::Op::In(l)) => Ok(OpValInt64::In(l.values)),
            Some(proto_op_val_int64::Op::NotIn(l)) => Ok(OpValInt64::NotIn(l.values)),
            Some(proto_op_val_int64::Op::Lt(v)) => Ok(OpValInt64::Lt(v)),
            Some(proto_op_val_int64::Op::Lte(v)) => Ok(OpValInt64::Lte(v)),
            Some(proto_op_val_int64::Op::Gt(v)) => Ok(OpValInt64::Gt(v)),
            Some(proto_op_val_int64::Op::Gte(v)) => Ok(OpValInt64::Gte(v)),
            Some(proto_op_val_int64::Op::Null(v)) => Ok(OpValInt64::Null(v)),
            None => Err(ProtoConversionError::MissingField("OpValInt64.op")),
        }
    }
}

/// The operator value of a proto message; an absent operator is an error.
pub open spec fn proto_op_val_int32_result(p: ProtoOpValInt32) -> Result<OpValInt32, ProtoConversionError> {
    match p.op {
        Some(proto_op_val_int32::Op::Eq(v)) => Ok(OpValInt32::Eq(v)),
        Some(proto_op_val_int32::Op::Not(v)) => Ok(OpValInt32::Not(v)),
        Some(proto_op_val_int32::Op::In(l)) => Ok(OpValInt32::In(l.values)),
        Some(proto_op_val_int32::Op::NotIn(l)) => Ok(OpValInt32::NotIn(l.values)),
        Some(proto_op_val_int32::Op::Lt(v)) => Ok(OpValInt32::Lt(v)),
        Some(proto_op_val_int32::Op::Lte(v)) => Ok(OpValInt32::Lte(v)),
        Some(proto_op_val_int32::Op::Gt(v)) => Ok(OpValInt32::Gt(v)),
        Some(proto_op_val_int32::Op::Gte(v)) => Ok(OpValInt32::Gte(v)),
        Some(proto_op_val_int32::Op::Null(v)) => Ok(OpValInt32::Null(v)),
        None => Err(ProtoConversionError::MissingField("OpValInt32.op")),
    }
}

impl OpValInt32 {
    /// The operator value of a proto message (see `proto_op_val_int32_result`).
    pub fn try_from(p: ProtoOpValInt32) -> (r: Result<OpValInt32, ProtoConversionError>)
        ensures
            r == proto_op_val_int32_result(p),
    {
        match p.op {
            Some(proto_op_val_int32::Op::Eq(v)) => Ok(OpValInt32::Eq(v)),
            Some(proto_op_val_int32::Op::Not(v)) => Ok(OpValInt32::Not(v)),
            Some(proto_op_val_int32::Op::In(l)) => Ok(OpValInt32::In(l.values)),
            Some(proto_op_val_int32::Op::NotIn(l)) => Ok(OpValInt32::NotIn(l.values)),
            Some(proto_op_val_int32::Op::Lt(v)) => Ok(OpValInt32::Lt(v)),
            Some(proto_op_val_int32::Op::Lte(v)) => Ok(OpValInt32::Lte(v)),
            Some(proto_op_val_int32::Op::Gt(v)) => Ok(OpValInt32::Gt(v)),
            Some(proto_op_val_int32::Op::Gte(v)) => Ok(OpValInt32::Gte(v)),
            Some(proto_op_val_int32::Op::Null(v)) => Ok(OpValInt32::Null(v)),
            None => Err(ProtoConversionError::MissingField("OpValInt32.op")),
        }
    }
}

/// The operator value of a proto message; an absent operator is an error.
pub open spec fn proto_op_val_float64_result(p: ProtoOpValFloat64) -> Result<OpValFloat64, ProtoConversionError> {
    match p.op {
        Some(proto_op_val_float64::Op::Eq(v)) => Ok(OpValFloat64::Eq(v)),
        Some(proto_op_val_float64::Op::Not(v)) => Ok(OpValFloat64::Not(v)),
        Some(proto_op_val_float64::Op::In(l)) => Ok(OpValFloat64::In(l.values)),
        Some(proto_op_val_float64::Op::NotIn(l)) => Ok(OpValFloat64::NotIn(l.values)),
        Some(proto_op_val_float64::Op::Lt(v)) => Ok(OpValFloat64::Lt(v)),
        Some(proto_op_val_float64::Op::Lte(v)) => Ok(OpValFloat64::Lte(v)),
        Some(proto_op_val_float64::Op::Gt(v)) => Ok(OpValFloat64::Gt(v)),
        Some(proto_op_val_float64::Op::Gte(v)) => Ok(OpValFloat64::Gte(v)),
        Some(proto_op_val_float64::Op::Null(v)) => Ok(OpValFloat64::Null(v)),
        None => Err(ProtoConversionError::MissingField("OpValFloat64.op")),
    }
}

impl OpValFloat64 {
    /// The operator value of a proto message (see `proto_op_val_float64_result`).
    pub fn try_from(p: ProtoOpValFloat64) -> (r: Result<OpValFloat64, ProtoConversionError>)
        ensures
            r == proto_op_val_float64_result(p),
    {
        match p.op {
            Some(proto_op_val_float64::Op::Eq(v)) => Ok(OpValFloat64::Eq(v)),
            Some(proto_op_val_float64::Op::Not(v)) => Ok(OpValFloat64::Not(v)),
            Some(proto_op_val_float64::Op::In(l)) => Ok(OpValFloat64::In(l.values)),
            Some(proto_op_val_float64::Op::NotIn(l)) => Ok(OpValFloat64::NotIn(l.values)),
            Some(proto_op_val_float64::Op::Lt(v)) => Ok(OpValFloat64::Lt(v)),
            Some(proto_op_val_float64::Op::Lte(v)) => Ok(OpValFloat64::Lte(v)),
            Some(proto_op_val_float64::Op::Gt(v)) => Ok(OpValFloat64::Gt(v)),
            Some(proto_op_val_float64::Op::Gte(v)) => Ok(OpValFloat64::Gte(v)),
            Some(proto_op_val_float64::Op::Null(v)) => Ok(OpValFloat64::Null(v)),
            None => Err(ProtoConversionError::MissingField("OpValFloat64.op")),
        }
    }
}

/// The boolean operator value of a proto message; an absent operator is an error.
pub open spec fn proto_op_val_bool_result(p: ProtoOpValBool) -> Result<OpValBool, ProtoConversionError> {
    match p.op {
        Some(proto_op_val_bool::Op::Eq(v)) => Ok(OpValBool::Eq(v)),
        Some(proto_op_val_bool::Op::Not(v)) => Ok(OpValBool::Not(v)),
        Some(proto_op_val_bool::Op::Null(v)) => Ok(OpValBool::Null(v)),
        None => Err(ProtoConversionError::MissingField("OpValBool.op")),
    }
}

impl OpValBool {
    /// The boolean operator value of a proto message (see `proto_op_val_bool_result`).
    pub fn try_from(p: ProtoOpValBool) -> (r: Result<OpValBool, ProtoConversionError>)
        ensures
            r == proto_op_val_bool_result(p),
    {
        match p.op {
            Some(proto_op_val_bool::Op::Eq(v)) => Ok(OpValBool::Eq(v)),
            Some(proto_op_val_bool::Op::Not(v)) => Ok(OpValBool::Not(v)),
            Some(proto_op_val_bool::Op::Null(v)) => Ok(OpValBool::Null(v)),
            None => Err(ProtoConversionError::MissingField("OpValBool.op")),
        }
    }
}

// -- OpValValue: values are JSON texts

/// The JSON value of a text, or the parse error.
pub open spec fn json_value_conv_of(s: String) -> Result<serde_json::Value, ProtoConversionError> {
    match json_text_parsed(s@) {
        Ok(v) => Ok(v),
        Err(e) => Err(ProtoConversionError::InvalidJsonValue(e)),
    }
}

/// Parsing a JSON text, as a function.
pub open spec fn json_value_conv() -> spec_fn(String) -> Result<serde_json::Value, ProtoConversionError> {
    |x: String| json_value_conv_of(x)
}

/// Parses a JSON text.
fn parse_json(s: String) -> (r: Result<serde_json::Value, ProtoConversionError>)
    ensures
        r == json_value_conv_of(s),
{
    match json_from_str(s.as_str()) {
        Ok(v) => Ok(v),
        Err(e) => Err(ProtoConversionError::InvalidJsonValue(e)),
    }
}

/// Converts the items of a list in order; the first that fails gives the error.
fn parse_json_list(items: Vec<String>) -> (r: Result<Vec<serde_json::Value>, ProtoConversionError>)
    ensures
        match convert_all(items@, json_value_conv()) {
            Ok(vs) => r matches Ok(v) && v@ == vs,
            Err(e) => r == Err::<Vec<serde_json::Value>, ProtoConversionError>(e),
        },
{
    let ghost xs = items@;
    let mut out: Vec<serde_json::Value> = Vec::new();
    for x in it: items.into_iter()
        invariant
            it.seq() == xs,
            convert_all(xs.take(it.index()), json_value_conv()) == Ok::<Seq<serde_json::Value>, ProtoConversionError>(out@),
    {
        proof {
            lemma_convert_all_step(xs, json_value_conv(), it.index());
        }
        match parse_json(x) {
            Ok(v) => out.push(v),
            Err(e) => {
                proof {
                    lemma_convert_all_prefix_err(xs, json_value_conv(), it.index() + 1);
                }
                return Err(e);
            },
        }
    }
    assert(xs.take(xs.len() as int) =~= xs);
    Ok(out)
}

/// The operator value of a proto message; an absent operator is an error.
pub open spec fn proto_op_val_json_value_result(p: ProtoOpValJsonValue) -> Result<OpModel<serde_json::Value>, ProtoConversionError> {
    match p.op {
        Some(proto_op_val_json_value::Op::Eq(v)) => single_of(CmpKind::Eq, json_value_conv_of(v)),
        Some(proto_op_val_json_value::Op::Not(v)) => single_of(CmpKind::Not, json_value_conv_of(v)),
        Some(proto_op_val_json_value::Op::In(l)) => list_of(ListKind::In, convert_all(l.values@, json_value_conv())),
        Some(proto_op_val_json_value::Op::NotIn(l)) => list_of(ListKind::NotIn, convert_all(l.values@, json_value_conv())),
        Some(proto_op_val_json_value::Op::Lt(v)) => single_of(CmpKind::Lt, json_value_conv_of(v)),
        Some(proto_op_val_json_value::Op::Lte(v)) => single_of(CmpKind::Lte, json_value_conv_of(v)),
        Some(proto_op_val_json_value::Op::Gt(v)) => single_of(CmpKind::Gt, json_value_conv_of(v)),
        Some(proto_op_val_json_value::Op::Gte(v)) => single_of(CmpKind::Gte, json_value_conv_of(v)),
        Some(proto_op_val_json_value::Op::Null(b)) => Ok(OpModel::Null(b)),
        None => Err(ProtoConversionError::MissingField("OpValJsonValue.op")),
    }
}

impl OpValValue {
    /// The operator value of a proto message (see `proto_op_val_json_value_result`).
    pub fn try_from(p: ProtoOpValJsonValue) -> (r: Result<OpValValue, ProtoConversionError>)
        ensures
            ok_view(r) == proto_op_val_json_value_result(p),
    {
        match p.op {
            Some(proto_op_val_json_value::Op::Eq(v)) => match parse_json(v) {
                Ok(x) => Ok(OpValValue::Eq(x)),
                Err(e) => Err(e),
            },
            Some(proto_op_val_json_value::Op::Not(v)) => match parse_json(v) {
                Ok(x) => Ok(OpValValue::Not(x)),
                Err(e) => Err(e),
            },
            Some(proto_op_val_json_value::Op::In(l)) => match parse_json_list(l.values) {
                Ok(xs) => Ok(OpValValue::In(xs)),
                Err(e) => Err(e),
            },
            Some(proto_op_val_json_value::Op::NotIn(l)) => match parse_json_list(l.values) {
                Ok(xs) => Ok(OpValValue::NotIn(xs)),
                Err(e) => Err(e),
            },
            Some(proto_op_val_json_value::Op::Lt(v)) => match parse_json(v) {
                Ok(x) => Ok(OpValValue::Lt(x)),
                Err(e) => Err(e),
            },
            Some(proto_op_val_json_value::Op::Lte(v)) => match parse_json(v) {
                Ok(x) => Ok(OpValValue::Lte(x)),
                Err(e) => Err(e),
            },
            Some(proto_op_val_json_value::Op::Gt(v)) => match parse_json(v) {
                Ok(x) => Ok(OpValValue::Gt(x)),
                Err(e) => Err(e),
            },
            Some(proto_op_val_json_value::Op::Gte(v)) => match parse_json(v) {
                Ok(x) => Ok(OpValValue::Gte(x)),
                Err(e) => Err(e),
            },
            Some(proto_op_val_json_value::Op::Null(b)) => Ok(OpValValue::Null(b)),
            None => Err(ProtoConversionError::MissingField("OpValJsonValue.op")),
        }
    }
}

// -- OpValUuid: UUIDs are their bytes in URL-safe base64 without padding

/// The UUID whose 16 bytes a text encodes in URL-safe base64 without padding;
/// any other text is an invalid UUID.
pub open spec fn uuid_conv_of(s: String) -> Result<Uuid, ProtoConversionError> {
    uuid_text_conv(s@)
}

/// The UUID whose 16 bytes a text encodes in URL-safe base64 without padding;
/// any other text is an invalid UUID.
pub open spec fn uuid_text_conv(s: Seq<char>) -> Result<Uuid, ProtoConversionError> {
    match base64url_nopad_decoded(s) {
        Some(b) => if b.len() == 16 {
            Ok(Uuid(be_bytes_value(b) as u128))
        } else {
            Err(ProtoConversionError::MissingField("Invalid UUID"))
        },
        None => Err(ProtoConversionError::MissingField("Invalid UUID")),
    }
}

/// Decoding a UUID, as a function.
pub open spec fn uuid_conv() -> spec_fn(String) -> Result<Uuid, ProtoConversionError> {
    |x: String| uuid_conv_of(x)
}

/// Decodes a UUID (see `uuid_conv_of`).
fn parse_uuid_string(s: String) -> (r: Result<Uuid, ProtoConversionError>)
    ensures
        r == uuid_conv_of(s),
{
    parse_uuid(s.as_str())
}

/// Decodes a UUID from its bytes in URL-safe base64 without padding.
pub fn parse_uuid(v: &str) -> (r: Result<Uuid, ProtoConversionError>)
    ensures
        r == uuid_text_conv(v@),
{
    match decode_base64url_nopad(v) {
        Some(decoded) => match uuid_from_slice(decoded.as_slice()) {
            Some(u) => Ok(u),
            None => Err(ProtoConversionError::MissingField("Invalid UUID")),
        },
        None => Err(ProtoConversionError::MissingField("Invalid UUID")),
    }
}

/// The text of a UUID as proto messages carry it: its 16 bytes, most
/// significant first, in URL-safe base64 without padding. Decoding the text
/// (`parse_uuid`) gives the UUID back.
pub fn encode_uuid(u: Uuid) -> (r: String)
    ensures
        r@ == uuid_base64url_text(u.0),
        uuid_text_conv(r@) == Ok::<Uuid, ProtoConversionError>(u),
{
    encode_base64url_nopad_uuid(u)
}

/// Converts the items of a list in order; the first that fails gives the error.
fn parse_uuid_list(items: Vec<String>) -> (r: Result<Vec<Uuid>, ProtoConversionError>)
    ensures
        match convert_all(items@, uuid_conv()) {
            Ok(vs) => r matches Ok(v) && v@ == vs,
            Err(e) => r == Err::<Vec<Uuid>, ProtoConversionError>(e),
        },
{
    let ghost xs = items@;
    let mut out: Vec<Uuid> = Vec::new();
    for x in it: items.into_iter()
        invariant
            it.seq() == xs,
            convert_all(xs.take(it.index()), uuid_conv()) == Ok::<Seq<Uuid>, ProtoConversionError>(out@),
    {
        proof {
            lemma_convert_all_step(xs, uuid_conv(), it.index());
        }
        match parse_uuid_string(x) {
            Ok(v) => out.push(v),
            Err(e) => {
                proof {
                    lemma_convert_all_prefix_err(xs, uuid_conv(), it.index() + 1);
                }
                return Err(e);
            },
        }
    }
    assert(xs.take(xs.len() as int) =~= xs);
    Ok(out)
}

/// The operator value of a proto message; an absent operator is an error.
pub open spec fn proto_op_val_uuid_result(p: ProtoOpValUuid) -> Result<OpModel<Uuid>, ProtoConversionError> {
    match p.op {
        Some(proto_op_val_uuid::Op::Eq(v)) => single_of(CmpKind::Eq, uuid_conv_of(v)),
        Some(proto_op_val_uuid::Op::Not(v)) => single_of(CmpKind::Not, uuid_conv_of(v)),
        Some(proto_op_val_uuid::Op::In(l)) => list_of(ListKind::In, convert_all(l.values@, uuid_conv())),
        Some(proto_op_val_uuid::Op::NotIn(l)) => list_of(ListKind::NotIn, convert_all(l.values@, uuid_conv())),
        Some(proto_op_val_uuid::Op::Lt(v)) => single_of(CmpKind::Lt, uuid_conv_of(v)),
        Some(proto_op_val_uuid::Op::Lte(v)) => single_of(CmpKind::Lte, uuid_conv_of(v)),
        Some(proto_op_val_uuid::Op::Gt(v)) => single_of(CmpKind::Gt, uuid_conv_of(v)),
        Some(proto_op_val_uuid::Op::Gte(v)) => single_of(CmpKind::Gte, uuid_conv_of(v)),
        Some(proto_op_val_uuid::Op::Null(b)) => Ok(OpModel::Null(b)),
        None => Err(ProtoConversionError::MissingField("OpValUuid.op")),
    }
}

impl OpValUuid {
    /// The operator value of a proto message (see `proto_op_val_uuid_result`).
    pub fn try_from(p: ProtoOpValUuid) -> (r: Result<OpValUuid, ProtoConversionError>)
        ensures
            ok_view(r) == proto_op_val_uuid_result(p),
    {
        match p.op {
            Some(proto_op_val_uuid::Op::Eq(v)) => match parse_uuid_string(v) {
                Ok(x) => Ok(OpValUuid::Eq(x)),
                Err(e) => Err(e),
            },
            Some(proto_op_val_uuid::Op::Not(v)) => match parse_uuid_string(v) {
                Ok(x) => Ok(OpValUuid::Not(x)),
                Err(e) => Err(e),
            },
            Some(proto_op_val_uuid::Op::In(l)) => match parse_uuid_list(l.values) {
                Ok(xs) => Ok(OpValUuid::In(xs)),
                Err(e) => Err(e),
            },
            Some(proto_op_val_uuid::Op::NotIn(l)) => match parse_uuid_list(l.values) {
                Ok(xs) => Ok(OpValUuid::NotIn(xs)),
                Err(e) => Err(e),
            },
            Some(proto_op_val_uuid::Op::Lt(v)) => match parse_uuid_string(v) {
                Ok(x) => Ok(OpValUuid::Lt(x)),
                Err(e) => Err(e),
            },
            Some(proto_op_val_uuid::Op::Lte(v)) => match parse_uuid_string(v) {
                Ok(x) => Ok(OpValUuid::Lte(x)),
                Err(e) => Err(e),
            },
            Some(proto_op_val_uuid::Op::Gt(v)) => match parse_uuid_string(v) {
                Ok(x) => Ok(OpValUuid::Gt(x)),
                Err(e) => Err(e),
            },
            Some(proto_op_val_uuid::Op::Gte(v)) => match parse_uuid_string(v) {
                Ok(x) => Ok(OpValUuid::Gte(x)),
                Err(e) => Err(e),
            },
            Some(proto_op_val_uuid::Op::Null(b)) => Ok(OpValUuid::Null(b)),
            None => Err(ProtoConversionError::MissingField("OpValUuid.op")),
        }
    }
}

// -- OpValTimestamp: seconds and nanoseconds since the UNIX epoch

/// The date-time of a proto timestamp; the nanoseconds are read as unsigned
/// (so negative ones are out of range), and a date-time that chrono does not
/// represent is an invalid timestamp.
pub open spec fn datetime_conv_of(t: ProtoTimestamp) -> Result<UtcDateTime, ProtoConversionError> {
    match UtcDateTime::spec_from_timestamp(t.seconds, t.nanos as u32) {
        Some(d) => Ok(d),
        None => Err(ProtoConversionError::MissingField("Invalid Timestamp")),
    }
}

/// Reading a proto timestamp, as a function.
pub open spec fn datetime_conv() -> spec_fn(ProtoTimestamp) -> Result<UtcDateTime, ProtoConversionError> {
    |x: ProtoTimestamp| datetime_conv_of(x)
}

/// The date-time of a proto timestamp (see `datetime_conv_of`).
fn to_datetime(t: ProtoTimestamp) -> (r: Result<UtcDateTime, ProtoConversionError>)
    ensures
        r == datetime_conv_of(t),
{
    match UtcDateTime::from_timestamp(t.seconds, t.nanos as u32) {
        Some(d) => Ok(d),
        None => Err(ProtoConversionError::MissingField("Invalid Timestamp")),
    }
}

/// Converts the items of a list in order; the first that fails gives the error.
fn to_datetimes(items: Vec<ProtoTimestamp>) -> (r: Result<Vec<UtcDateTime>, ProtoConversionError>)
    ensures
        match convert_all(items@, datetime_conv()) {
            Ok(vs) => r matches Ok(v) && v@ == vs,
            Err(e) => r == Err::<Vec<UtcDateTime>, ProtoConversionError>(e),
        },
{
    let ghost xs = items@;
    let mut out: Vec<UtcDateTime> = Vec::new();
    for x in it: items.into_iter()
        invariant
            it.seq() == xs,
            convert_all(xs.take(it.index()), datetime_conv()) == Ok::<Seq<UtcDateTime>, ProtoConversionError>(out@),
    {
        proof {
            lemma_convert_all_step(xs, datetime_conv(), it.index());
        }
        match to_datetime(x) {
            Ok(v) => out.push(v),
            Err(e) => {
                proof {
                    lemma_convert_all_prefix_err(xs, datetime_conv(), it.index() + 1);
                }
                return Err(e);
            },
        }
    }
    assert(xs.take(xs.len() as int) =~= xs);
    Ok(out)
}

/// The operator value of a proto message; an absent operator is an error.
pub open spec fn proto_op_val_timestamp_result(p: ProtoOpValTimestamp) -> Result<OpModel<UtcDateTime>, ProtoConversionError> {
    match p.op {
        Some(proto_op_val_timestamp::Op::Eq(v)) => single_of(CmpKind::Eq, datetime_conv_of(v)),
        Some(proto_op_val_timestamp::Op::Not(v)) => single_of(CmpKind::Not, datetime_conv_of(v)),
        Some(proto_op_val_timestamp::Op::In(l)) => list_of(ListKind::In, convert_all(l.values@, datetime_conv())),
        Some(proto_op_val_timestamp::Op::NotIn(l)) => list_of(ListKind::NotIn, convert_all(l.values@, datetime_conv())),
        Some(proto_op_val_timestamp::Op::Lt(v)) => single_of(CmpKind::Lt, datetime_conv_of(v)),
        Some(proto_op_val_timestamp::Op::Lte(v)) => single_of(CmpKind::Lte, datetime_conv_of(v)),
        Some(proto_op_val_timestamp::Op::Gt(v)) => single_of(CmpKind::Gt, datetime_conv_of(v)),
        Some(proto_op_val_timestamp::Op::Gte(v)) => single_of(CmpKind::Gte, datetime_conv_of(v)),
        Some(proto_op_val_timestamp::Op::Null(b)) => Ok(OpModel::Null(b)),
        None => Err(ProtoConversionError::MissingField("OpValTimestamp.op")),
    }
}

impl OpValTimestamp {
    /// The operator value of a proto message (see `proto_op_val_timestamp_result`).
    pub fn try_from(p: ProtoOpValTimestamp) -> (r: Result<OpValTimestamp, ProtoConversionError>)
        ensures
            ok_view(r) == proto_op_val_timestamp_result(p),
    {
        match p.op {
            Some(proto_op_val_timestamp::Op::Eq(v)) => match to_datetime(v) {
                Ok(x) => Ok(OpValTimestamp::Eq(x)),
                Err(e) => Err(e),
            },
            Some(proto_op_val_timestamp::Op::Not(v)) => match to_datetime(v) {
                Ok(x) => Ok(OpValTimestamp::Not(x)),
                Err(e) => Err(e),
            },
            Some(proto_op_val_timestamp::Op::In(l)) => match to_datetimes(l.values) {
                Ok(xs) => Ok(OpValTimestamp::In(xs)),
                Err(e) => Err(e),
            },
            Some(proto_op_val_timestamp::Op::NotIn(l)) => match to_datetimes(l.values) {
                Ok(xs) => Ok(OpValTimestamp::NotIn(xs)),
                Err(e) => Err(e),
            },
            Some(proto_op_val_timestamp::Op::Lt(v)) => match to_datetime(v) {
                Ok(x) => Ok(OpValTimestamp::Lt(x)),
                Err(e) => Err(e),
            },
            Some(proto_op_val_timestamp::Op::Lte(v)) => match to_datetime(v) {
                Ok(x) => Ok(OpValTimestamp::Lte(x)),
                Err(e) => Err(e),
            },
            Some(proto_op_val_timestamp::Op::Gt(v)) => match to_datetime(v) {
                Ok(x) => Ok(OpValTimestamp::Gt(x)),
                Err(e) => Err(e),
            },
            Some(proto_op_val_timestamp::Op::Gte(v)) => match to_datetime(v) {
                Ok(x) => Ok(OpValTimestamp::Gte(x)),
                Err(e) => Err(e),
            },
            Some(proto_op_val_timestamp::Op::Null(b)) => Ok(OpValTimestamp::Null(b)),
            None => Err(ProtoConversionError::MissingField("OpValTimestamp.op")),
        }
    }
}

// -- OpVal

/// The operator value of a proto message, by the kind it holds; an absent
/// kind is an error.
pub open spec fn op_val_result(p: ProtoOpVal) -> Result<OpValModel, ProtoConversionError> {
    match p.value {
        Some(proto_op_val::Value::String(v)) => match op_val_string_result(v) {
            Ok(x) => Ok(OpValModel::String(x)),
            Err(e) => Err(e),
        },
        Some(proto_op_val::Value::Int64(v)) => match proto_op_val_int64_result(v) {
            Ok(x) => Ok(OpValModel::Int64(x)),
            Err(e) => Err(e),
        },
        Some(proto_op_val::Value::Int32(v)) => match proto_op_val_int32_result(v) {
            Ok(x) => Ok(OpValModel::Int32(x)),
            Err(e) => Err(e),
        },
        Some(proto_op_val::Value::Float64(v)) => match proto_op_val_float64_result(v) {
            Ok(x) => Ok(OpValModel::Float64(x)),
            Err(e) => Err(e),
        },
        Some(proto_op_val::Value::Bool(v)) => match proto_op_val_bool_result(v) {
            Ok(x) => Ok(OpValModel::Bool(x)),
            Err(e) => Err(e),
        },
        Some(proto_op_val::Value::JsonValue(v)) => match proto_op_val_json_value_result(v) {
            Ok(m) => Ok(OpValModel::Value(m)),
            Err(e) => Err(e),
        },
        Some(proto_op_val::Value::Uuid(v)) => match proto_op_val_uuid_result(v) {
            Ok(m) => Ok(OpValModel::Uuid(m)),
            Err(e) => Err(e),
        },
        Some(proto_op_val::Value::Timestamp(v)) => match proto_op_val_timestamp_result(v) {
            Ok(m) => Ok(OpValModel::Timestamp(m)),
            Err(e) => Err(e),
        },
        None => Err(ProtoConversionError::MissingField("OpVal.value")),
    }
}

/// Converting an operator value, as a function.
pub open spec fn op_val_conv() -> spec_fn(ProtoOpVal) -> Result<OpValModel, ProtoConversionError> {
    |p: ProtoOpVal| op_val_result(p)
}

/// The errors that a conversion reports: a missing field (an absent
/// `oneof`, or a UUID or timestamp that is not valid) or a JSON text that
/// does not parse.
pub open spec fn is_reported_error(e: ProtoConversionError) -> bool {
    e is MissingField || e is InvalidJsonValue
}

proof fn lemma_list_error<A, B>(s: Seq<A>, f: spec_fn(A) -> Result<B, ProtoConversionError>)
    requires
        forall|i: int| 0 <= i < s.len() ==> ((#[trigger] f(s[i])) matches Err(e) ==> is_reported_error(e)),
    ensures
        convert_all(s, f) matches Err(e) ==> is_reported_error(e),
{
    lemma_convert_all_err(s, f);
}

/// A proto operator value fails to convert only with a missing field or an
/// unparsable JSON text; one with no kind is missing `OpVal.value`; and a
/// string, integer, float or boolean one fails exactly when its operator is
/// absent.
pub proof fn lemma_op_val_errors(p: ProtoOpVal)
    ensures
        op_val_result(p) matches Err(e) ==> is_reported_error(e),
        p.value is None ==> op_val_result(p) == Err::<OpValModel, ProtoConversionError>(
            ProtoConversionError::MissingField("OpVal.value"),
        ),
        p.value matches Some(proto_op_val::Value::String(v)) ==> (op_val_result(p) is Err <==> v.op is None),
        p.value matches Some(proto_op_val::Value::Int64(v)) ==> (op_val_result(p) is Err <==> v.op is None),
        p.value matches Some(proto_op_val::Value::Int32(v)) ==> (op_val_result(p) is Err <==> v.op is None),
        p.value matches Some(proto_op_val::Value::Float64(v)) ==> (op_val_result(p) is Err <==> v.op is None),
        p.value matches Some(proto_op_val::Value::Bool(v)) ==> (op_val_result(p) is Err <==> v.op is None),
{
    match p.value {
        Some(proto_op_val::Value::String(v)) => {
            if let Some(op) = v.op {
                assert(op_val_string_result(v) == Ok::<OpValString, ProtoConversionError>(op_val_string_of(op)));
            }
        },
        Some(proto_op_val::Value::JsonValue(v)) => {
            match v.op {
                Some(proto_op_val_json_value::Op::In(l)) => lemma_list_error(l.values@, json_value_conv()),
                Some(proto_op_val_json_value::Op::NotIn(l)) => lemma_list_error(l.values@, json_value_conv()),
                _ => {},
            }
        },
        Some(proto_op_val::Value::Uuid(v)) => {
            match v.op {
                Some(proto_op_val_uuid::Op::In(l)) => lemma_list_error(l.values@, uuid_conv()),
                Some(proto_op_val_uuid::Op::NotIn(l)) => lemma_list_error(l.values@, uuid_conv()),
                _ => {},
            }
        },
        Some(proto_op_val::Value::Timestamp(v)) => {
            match v.op {
                Some(proto_op_val_timestamp::Op::In(l)) => lemma_list_error(l.values@, datetime_conv()),
                Some(proto_op_val_timestamp::Op::NotIn(l)) => lemma_list_error(l.values@, datetime_conv()),
                _ => {},
            }
        },
        _ => {},
    }
}

impl OpVal {
    /// The operator value of a proto message (see `op_val_result`).
    pub fn try_from(p: ProtoOpVal) -> (r: Result<OpVal, ProtoConversionError>)
        ensures
            ok_view(r) == op_val_result(p),
    {
        match p.value {
            Some(proto_op_val::Value::String(v)) => match OpValString::try_from(v) {
                Ok(x) => Ok(OpVal::String(x)),
                Err(e) => Err(e),
            },
            Some(proto_op_val::Value::Int64(v)) => match OpValInt64::try_from(v) {
                Ok(x) => Ok(OpVal::Int64(x)),
                Err(e) => Err(e),
            },
            Some(proto_op_val::Value::Int32(v)) => match OpValInt32::try_from(v) {
                Ok(x) => Ok(OpVal::Int32(x)),
                Err(e) => Err(e),
            },
            Some(proto_op_val::Value::Float64(v)) => match OpValFloat64::try_from(v) {
                Ok(x) => Ok(OpVal::Float64(x)),
                Err(e) => Err(e),
            },
            Some(proto_op_val::Value::Bool(v)) => match OpValBool::try_from(v) {
                Ok(x) => Ok(OpVal::Bool(x)),
                Err(e) => Err(e),
            },
            Some(proto_op_val::Value::Uuid(v)) => match OpValUuid::try_from(v) {
                Ok(x) => Ok(OpVal::Uuid(x)),
                Err(e) => Err(e),
            },
            Some(proto_op_val::Value::Timestamp(v)) => match OpValTimestamp::try_from(v) {
                Ok(x) => Ok(OpVal::Timestamp(x)),
                Err(e) => Err(e),
            },
            Some(proto_op_val::Value::JsonValue(v)) => match OpValValue::try_from(v) {
                Ok(x) => Ok(OpVal::Value(x)),
                Err(e) => Err(e),
            },
            None => Err(ProtoConversionError::MissingField("OpVal.value")),
        }
    }
}

/// Converts operator values in order; the first that fails gives the error.
fn op_vals_try_from(items: Vec<ProtoOpVal>) -> (r: Result<Vec<OpVal>, ProtoConversionError>)
    ensures
        match convert_all(items@, op_val_conv()) {
            Ok(ms) => r matches Ok(v) && v@.map_values(|o: OpVal| o@) == ms,
            Err(e) => r == Err::<Vec<OpVal>, ProtoConversionError>(e),
        },
{
    let ghost xs = items@;
    let mut out: Vec<OpVal> = Vec::new();
    for x in it: items.into_iter()
        invariant
            it.seq() == xs,
            convert_all(xs.take(it.index()), op_val_conv()) is Ok,
            convert_all(xs.take(it.index()), op_val_conv())->Ok_0.len() == out@.len(),
            forall|j: int| 0 <= j < out@.len() ==> convert_all(xs.take(it.index()), op_val_conv())->Ok_0[j] == (#[trigger] out@[j])@,
    {
        proof {
            lemma_convert_all_step(xs, op_val_conv(), it.index());
        }
        match OpVal::try_from(x) {
            Ok(v) => out.push(v),
            Err(e) => {
                proof {
                    lemma_convert_all_prefix_err(xs, op_val_conv(), it.index() + 1);
                }
                return Err(e);
            },
        }
    }
    assert(xs.take(xs.len() as int) =~= xs);
    assert(out@.map_values(|o: OpVal| o@) =~= convert_all(xs, op_val_conv())->Ok_0);
    Ok(out)
}

// -- FilterNode, FilterGroup, FilterGroups

/// The node of a proto message: its operator values converted in order (the
/// first that fails gives the error), its relation and name as they are, and
/// its options (none set when absent).
pub open spec fn filter_node_result(p: ProtoFilterNode) -> Result<FilterNodeModel, ProtoConversionError> {
    match convert_all(p.opvals@, op_val_conv()) {
        Ok(ovs) => Ok(FilterNodeModel { rel: p.rel, name: p.name, opvals: ovs, options: options_of(p.options) }),
        Err(e) => Err(e),
    }
}

/// Converting a filter node, as a function.
pub open spec fn filter_node_conv() -> spec_fn(ProtoFilterNode) -> Result<FilterNodeModel, ProtoConversionError> {
    |p: ProtoFilterNode| filter_node_result(p)
}

/// The nodes of a proto group, converted in order; the first that fails gives the error.
pub open spec fn filter_group_result(g: ProtoFilterGroup) -> Result<Seq<FilterNodeModel>, ProtoConversionError> {
    convert_all(g.nodes@, filter_node_conv())
}

/// Converting a filter group, as a function.
pub open spec fn filter_group_conv() -> spec_fn(ProtoFilterGroup) -> Result<Seq<FilterNodeModel>, ProtoConversionError> {
    |g: ProtoFilterGroup| filter_group_result(g)
}

/// The groups of a proto message, converted in order; the first that fails
/// gives the error.
pub open spec fn filter_groups_result(p: ProtoFilterGroups) -> Result<Seq<Seq<FilterNodeModel>>, ProtoConversionError> {
    convert_all(p.groups@, filter_group_conv())
}

impl FilterNode {
    /// The node of a proto message (see `filter_node_result`).
    pub fn try_from(p: ProtoFilterNode) -> (r: Result<FilterNode, ProtoConversionError>)
        ensures
            ok_view(r) == filter_node_result(p),
    {
        let opvals = match op_vals_try_from(p.opvals) {
            Ok(v) => v,
            Err(e) => return Err(e),
        };
        let options = match p.options {
            Some(o) => FilterNodeOptions::from(o),
            None => FilterNodeOptions::default(),
        };
        let mut node = FilterNode::new_with_rel(p.rel, p.name, opvals);
        node.options = options;
        Ok(node)
    }
}

/// Converts nodes in order; the first that fails gives the error.
fn nodes_try_from(items: Vec<ProtoFilterNode>) -> (r: Result<Vec<FilterNode>, ProtoConversionError>)
    ensures
        match convert_all(items@, filter_node_conv()) {
            Ok(ms) => r matches Ok(v) && v@.map_values(|o: FilterNode| o@) == ms,
            Err(e) => r == Err::<Vec<FilterNode>, ProtoConversionError>(e),
        },
{
    let ghost xs = items@;
    let mut out: Vec<FilterNode> = Vec::new();
    for x in it: items.into_iter()
        invariant
            it.seq() == xs,
            convert_all(xs.take(it.index()), filter_node_conv()) is Ok,
            convert_all(xs.take(it.index()), filter_node_conv())->Ok_0.len() == out@.len(),
            forall|j: int| 0 <= j < out@.len() ==> convert_all(xs.take(it.index()), filter_node_conv())->Ok_0[j] == (#[trigger] out@[j])@,
    {
        proof {
            lemma_convert_all_step(xs, filter_node_conv(), it.index());
        }
        match FilterNode::try_from(x) {
            Ok(v) => out.push(v),
            Err(e) => {
                proof {
                    lemma_convert_all_prefix_err(xs, filter_node_conv(), it.index() + 1);
                }
                return Err(e);
            },
        }
    }
    assert(xs.take(xs.len() as int) =~= xs);
    assert(out@.map_values(|o: FilterNode| o@) =~= convert_all(xs, filter_node_conv())->Ok_0);
    Ok(out)
}

/// The group of a proto message (see `filter_group_result`).
fn group_try_from(g: ProtoFilterGroup) -> (r: Result<FilterGroup, ProtoConversionError>)
    ensures
        ok_view(r) == filter_group_result(g),
{
    match nodes_try_from(g.nodes) {
        Ok(nodes) => Ok(FilterGroup::new(nodes)),
        Err(e) => Err(e),
    }
}

/// Converts groups in order; the first that fails gives the error.
fn groups_try_from(items: Vec<ProtoFilterGroup>) -> (r: Result<Vec<FilterGroup>, ProtoConversionError>)
    ensures
        match convert_all(items@, filter_group_conv()) {
            Ok(ms) => r matches Ok(v) && v@.map_values(|o: FilterGroup| o@) == ms,
            Err(e) => r == Err::<Vec<FilterGroup>, ProtoConversionError>(e),
        },
{
    let ghost xs = items@;
    let mut out: Vec<FilterGroup> = Vec::new();
    for x in it: items.into_iter()
        invariant
            it.seq() == xs,
            convert_all(xs.take(it.index()), filter_group_conv()) is Ok,
            convert_all(xs.take(it.index()), filter_group_conv())->Ok_0.len() == out@.len(),
            forall|j: int| 0 <= j < out@.len() ==> convert_all(xs.take(it.index()), filter_group_conv())->Ok_0[j] == (#[trigger] out@[j])@,
    {
        proof {
            lemma_convert_all_step(xs, filter_group_conv(), it.index());
        }
        match group_try_from(x) {
            Ok(v) => out.push(v),
            Err(e) => {
                proof {
                    lemma_convert_all_prefix_err(xs, filter_group_conv(), it.index() + 1);
                }
                return Err(e);
            },
        }
    }
    assert(xs.take(xs.len() as int) =~= xs);
    assert(out@.map_values(|o: FilterGroup| o@) =~= convert_all(xs, filter_group_conv())->Ok_0);
    Ok(out)
}

/// Every operator value of the proto node converts.
pub open spec fn node_converts(p: ProtoFilterNode) -> bool {
    forall|o: int| 0 <= o < p.opvals@.len() ==> (#[trigger] op_val_result(p.opvals@[o])) is Ok
}

/// `m` is the proto node `p` converted: same name, relation and options, and
/// one operator value for each of `p`'s, in order.
pub open spec fn node_corresponds(p: ProtoFilterNode, m: FilterNodeModel) -> bool {
    &&& m.name == p.name
    &&& m.rel == p.rel
    &&& m.options == options_of(p.options)
    &&& m.opvals.len() == p.opvals@.len()
    &&& forall|o: int| 0 <= o < m.opvals.len() ==>
        op_val_result(p.opvals@[o]) == Ok::<OpValModel, ProtoConversionError>(#[trigger] m.opvals[o])
}

/// Every operator value of every node of the proto group converts.
pub open spec fn group_converts(g: ProtoFilterGroup) -> bool {
    forall|n: int| 0 <= n < g.nodes@.len() ==> node_converts(#[trigger] g.nodes@[n])
}

/// `ms` is the proto group `g` converted: one node for each of `g`'s, in order.
pub open spec fn group_corresponds(g: ProtoFilterGroup, ms: Seq<FilterNodeModel>) -> bool {
    &&& ms.len() == g.nodes@.len()
    &&& forall|n: int| 0 <= n < ms.len() ==> node_corresponds(g.nodes@[n], #[trigger] ms[n])
}

proof fn lemma_node_shape(p: ProtoFilterNode)
    ensures
        filter_node_result(p) is Ok <==> node_converts(p),
        filter_node_result(p) matches Ok(m) ==> node_corresponds(p, m),
{
    lemma_convert_all_ok(p.opvals@, op_val_conv());
    assert forall|o: int| 0 <= o < p.opvals@.len() implies op_val_conv()(p.opvals@[o]) == op_val_result(#[trigger] p.opvals@[o]) by {}
}

proof fn lemma_group_shape(g: ProtoFilterGroup)
    ensures
        filter_group_result(g) is Ok <==> group_converts(g),
        filter_group_result(g) matches Ok(ms) ==> group_corresponds(g, ms),
{
    lemma_convert_all_ok(g.nodes@, filter_node_conv());
    assert forall|n: int| 0 <= n < g.nodes@.len() implies {
        &&& filter_node_conv()(g.nodes@[n]) == filter_node_result(#[trigger] g.nodes@[n])
        &&& (filter_node_result(g.nodes@[n]) is Ok <==> node_converts(g.nodes@[n]))
        &&& filter_node_result(g.nodes@[n]) matches Ok(m) ==> node_corresponds(g.nodes@[n], m)
    } by {
        lemma_node_shape(g.nodes@[n]);
    }
}

/// A proto filter message converts exactly when every operator value of
/// every node converts; then the groups, the nodes of each group, and the
/// operator values of each node correspond one to one and in order, and each
/// node keeps its name, relation and options.
pub proof fn lemma_filter_groups_shape(p: ProtoFilterGroups)
    ensures
        filter_groups_result(p) is Ok <==> forall|g: int| 0 <= g < p.groups@.len() ==> group_converts(#[trigger] p.groups@[g]),
        filter_groups_result(p) matches Ok(gs) ==> {
            &&& gs.len() == p.groups@.len()
            &&& forall|g: int| 0 <= g < gs.len() ==> group_corresponds(p.groups@[g], #[trigger] gs[g])
        },
{
    lemma_convert_all_ok(p.groups@, filter_group_conv());
    assert forall|g: int| 0 <= g < p.groups@.len() implies {
        &&& filter_group_conv()(p.groups@[g]) == filter_group_result(#[trigger] p.groups@[g])
        &&& (filter_group_result(p.groups@[g]) is Ok <==> group_converts(p.groups@[g]))
        &&& filter_group_result(p.groups@[g]) matches Ok(ms) ==> group_corresponds(p.groups@[g], ms)
    } by {
        lemma_group_shape(p.groups@[g]);
    }
}

/// A proto filter message that does not convert fails with the error of its
/// first operator value that does not convert, in group-major order: every
/// node of the groups before it converts, so does every node before it in its
/// group, and so does every operator value before it in its node. That error
/// is a missing field or a JSON text that does not parse.
pub proof fn lemma_filter_groups_error(p: ProtoFilterGroups)
    ensures
        filter_groups_result(p) matches Err(e) ==> {
            &&& is_reported_error(e)
            &&& exists|g: int, n: int, o: int| {
                &&& 0 <= g < p.groups@.len()
                &&& 0 <= n < p.groups@[g].nodes@.len()
                &&& 0 <= o < p.groups@[g].nodes@[n].opvals@.len()
                &&& #[trigger] op_val_result(p.groups@[g].nodes@[n].opvals@[o])
                    == Err::<OpValModel, ProtoConversionError>(e)
                &&& filter_node_result(p.groups@[g].nodes@[n]) == Err::<FilterNodeModel, ProtoConversionError>(e)
                &&& forall|h: int, m: int| 0 <= h < g && 0 <= m < p.groups@[h].nodes@.len()
                    ==> (#[trigger] filter_node_result(p.groups@[h].nodes@[m])) is Ok
                &&& forall|m: int| 0 <= m < n ==> (#[trigger] filter_node_result(p.groups@[g].nodes@[m])) is Ok
                &&& forall|q: int| 0 <= q < o ==> (#[trigger] op_val_result(p.groups@[g].nodes@[n].opvals@[q])) is Ok
            }
        },
{
    let gs = p.groups@;
    lemma_convert_all_err(gs, filter_group_conv());
    if filter_groups_result(p) is Err {
        let e = filter_groups_result(p)->Err_0;
        let g = choose|k: int| {
            &&& 0 <= k < gs.len()
            &&& #[trigger] filter_group_conv()(gs[k]) is Err
            &&& convert_all(gs, filter_group_conv()) == Err::<Seq<Seq<FilterNodeModel>>, ProtoConversionError>(filter_group_conv()(gs[k])->Err_0)
            &&& forall|j: int| 0 <= j < k ==> (#[trigger] filter_group_conv()(gs[j])) is Ok
        };
        assert forall|h: int, m: int| 0 <= h < g && 0 <= m < p.groups@[h].nodes@.len()
            implies (#[trigger] filter_node_result(p.groups@[h].nodes@[m])) is Ok by {
            assert(filter_group_conv()(gs[h]) is Ok);
            lemma_convert_all_ok(gs[h].nodes@, filter_node_conv());
            assert(filter_node_conv()(gs[h].nodes@[m]) is Ok);
        }
        let ns = gs[g].nodes@;
        lemma_convert_all_err(ns, filter_node_conv());
        let n = choose|k: int| {
            &&& 0 <= k < ns.len()
            &&& #[trigger] filter_node_conv()(ns[k]) is Err
            &&& convert_all(ns, filter_node_conv()) == Err::<Seq<FilterNodeModel>, ProtoConversionError>(filter_node_conv()(ns[k])->Err_0)
            &&& forall|j: int| 0 <= j < k ==> (#[trigger] filter_node_conv()(ns[j])) is Ok
        };
        assert forall|m: int| 0 <= m < n implies (#[trigger] filter_node_result(p.groups@[g].nodes@[m])) is Ok by {
            assert(filter_node_conv()(ns[m]) is Ok);
        }
        let os = ns[n].opvals@;
        lemma_convert_all_err(os, op_val_conv());
        let o = choose|k: int| {
            &&& 0 <= k < os.len()
            &&& #[trigger] op_val_conv()(os[k]) is Err
            &&& convert_all(os, op_val_conv()) == Err::<Seq<OpValModel>, ProtoConversionError>(op_val_conv()(os[k])->Err_0)
            &&& forall|j: int| 0 <= j < k ==> (#[trigger] op_val_conv()(os[j])) is Ok
        };
        assert forall|q: int| 0 <= q < o implies (#[trigger] op_val_result(p.groups@[g].nodes@[n].opvals@[q])) is Ok by {
            assert(op_val_conv()(os[q]) is Ok);
        }
        lemma_op_val_errors(os[o]);
        assert(op_val_result(p.groups@[g].nodes@[n].opvals@[o]) == Err::<OpValModel, ProtoConversionError>(e));
        assert(filter_node_result(p.groups@[g].nodes@[n]) == Err::<FilterNodeModel, ProtoConversionError>(e));
    }
}

impl FilterGroups {
    /// The filter groups of a proto message (see `filter_groups_result`).
    pub fn try_from(p: ProtoFilterGroups) -> (r: Result<FilterGroups, ProtoConversionError>)
        ensures
            ok_view(r) == filter_groups_result(p),
    {
        match groups_try_from(p.groups) {
            Ok(groups) => Ok(FilterGroups::new(groups)),
            Err(e) => Err(e),
        }
    }
}

// -- OpValTimestamp into ProtoOpValTimestamp (outbound)

/// The proto timestamp of a date-time: its seconds, and its nanoseconds
/// (below two seconds' worth, so they fit in an `i32`).
pub open spec fn proto_timestamp_of(d: UtcDateTime) -> ProtoTimestamp {
    ProtoTimestamp { seconds: d.seconds(), nanos: d.subsec_nanos() as i32 }
}

/// Every date-time of a sequence lies in chrono's range.
pub open spec fn all_in_range(ds: Seq<UtcDateTime>) -> bool {
    forall|i: int| 0 <= i < ds.len() ==> timestamp_in_range(#[trigger] ds[i].seconds(), ds[i].subsec_nanos())
}

/// Every date-time of an operator value lies in chrono's range (as every
/// `UtcDateTime` does).
pub open spec fn op_model_in_range(m: OpModel<UtcDateTime>) -> bool {
    match m {
        OpModel::Eq(d) => timestamp_in_range(d.seconds(), d.subsec_nanos()),
        OpModel::Not(d) => timestamp_in_range(d.seconds(), d.subsec_nanos()),
        OpModel::In(ds) => all_in_range(ds),
        OpModel::NotIn(ds) => all_in_range(ds),
        OpModel::Lt(d) => timestamp_in_range(d.seconds(), d.subsec_nanos()),
        OpModel::Lte(d) => timestamp_in_range(d.seconds(), d.subsec_nanos()),
        OpModel::Gt(d) => timestamp_in_range(d.seconds(), d.subsec_nanos()),
        OpModel::Gte(d) => timestamp_in_range(d.seconds(), d.subsec_nanos()),
        OpModel::Null(_) => true,
    }
}

/// `p` is the proto message of the timestamp operator value `m`: the same
/// operator, each date-time as its proto timestamp.
pub open spec fn is_proto_timestamp_op(m: OpModel<UtcDateTime>, p: ProtoOpValTimestamp) -> bool {
    match m {
        OpModel::Eq(d) => p.op == Some(proto_op_val_timestamp::Op::Eq(proto_timestamp_of(d))),
        OpModel::Not(d) => p.op == Some(proto_op_val_timestamp::Op::Not(proto_timestamp_of(d))),
        OpModel::In(ds) => p.op matches Some(proto_op_val_timestamp::Op::In(l))
            && l.values@ == ds.map_values(|d: UtcDateTime| proto_timestamp_of(d)),
        OpModel::NotIn(ds) => p.op matches Some(proto_op_val_timestamp::Op::NotIn(l))
            && l.values@ == ds.map_values(|d: UtcDateTime| proto_timestamp_of(d)),
        OpModel::Lt(d) => p.op == Some(proto_op_val_timestamp::Op::Lt(proto_timestamp_of(d))),
        OpModel::Lte(d) => p.op == Some(proto_op_val_timestamp::Op::Lte(proto_timestamp_of(d))),
        OpModel::Gt(d) => p.op == Some(proto_op_val_timestamp::Op::Gt(proto_timestamp_of(d))),
        OpModel::Gte(d) => p.op == Some(proto_op_val_timestamp::Op::Gte(proto_timestamp_of(d))),
        OpModel::Null(b) => p.op == Some(proto_op_val_timestamp::Op::Null(b)),
    }
}

/// The proto timestamp of a date-time.
fn to_proto_timestamp(dt: UtcDateTime) -> (r: ProtoTimestamp)
    ensures
        r == proto_timestamp_of(dt),
        timestamp_in_range(dt.seconds(), dt.subsec_nanos()),
{
    let seconds = dt.timestamp();
    let nanos = dt.timestamp_subsec_nanos();
    ProtoTimestamp { seconds, nanos: nanos as i32 }
}

/// The proto timestamps of date-times, in order.
fn to_proto_timestamps(dts: Vec<UtcDateTime>) -> (r: TimestampList)
    ensures
        r.values@ == dts@.map_values(|d: UtcDateTime| proto_timestamp_of(d)),
        forall|i: int| 0 <= i < dts@.len() ==> timestamp_in_range(#[trigger] dts@[i].seconds(), dts@[i].subsec_nanos()),
{
    let mut values: Vec<ProtoTimestamp> = Vec::new();
    let mut i: usize = 0;
    while i < dts.len()
        invariant
            i <= dts@.len(),
            values@.len() == i,
            forall|j: int| 0 <= j < i ==> #[trigger] values@[j] == proto_timestamp_of(dts@[j]),
            forall|j: int| 0 <= j < i ==> timestamp_in_range(#[trigger] dts@[j].seconds(), dts@[j].subsec_nanos()),
        decreases dts@.len() - i,
    {
        values.push(to_proto_timestamp(dts[i]));
        i = i + 1;
    }
    assert(values@ =~= dts@.map_values(|d: UtcDateTime| proto_timestamp_of(d)));
    TimestampList { values }
}

impl ProtoOpValTimestamp {
    /// The proto message of a timestamp operator value (see `is_proto_timestamp_op`).
    pub fn from(op: OpValTimestamp) -> (r: ProtoOpValTimestamp)
        ensures
            is_proto_timestamp_op(op@, r),
            op_model_in_range(op@),
    {
        let op_enum = match op {
            OpValTimestamp::Eq(dt) => proto_op_val_timestamp::Op::Eq(to_proto_timestamp(dt)),
            OpValTimestamp::Not(dt) => proto_op_val_timestamp::Op::Not(to_proto_timestamp(dt)),
            OpValTimestamp::In(dts) => proto_op_val_timestamp::Op::In(to_proto_timestamps(dts)),
            OpValTimestamp::NotIn(dts) => proto_op_val_timestamp::Op::NotIn(to_proto_timestamps(dts)),
            OpValTimestamp::Lt(dt) => proto_op_val_timestamp::Op::Lt(to_proto_timestamp(dt)),
            OpValTimestamp::Lte(dt) => proto_op_val_timestamp::Op::Lte(to_proto_timestamp(dt)),
            OpValTimestamp::Gt(dt) => proto_op_val_timestamp::Op::Gt(to_proto_timestamp(dt)),
            OpValTimestamp::Gte(dt) => proto_op_val_timestamp::Op::Gte(to_proto_timestamp(dt)),
            OpValTimestamp::Null(v) => proto_op_val_timestamp::Op::Null(v),
        };
        ProtoOpValTimestamp { op: Some(op_enum) }
    }
}

/// Reading back the proto timestamp of a date-time in range gives the date-time.
pub proof fn lemma_proto_timestamp_roundtrip(d: UtcDateTime)
    requires
        timestamp_in_range(d.seconds(), d.subsec_nanos()),
    ensures
        datetime_conv_of(proto_timestamp_of(d)) == Ok::<UtcDateTime, ProtoConversionError>(d),
{
    broadcast use crate::time::group_utc_date_time;
    assert((d.subsec_nanos() as i32) as u32 == d.subsec_nanos());
}

/// Reading back the proto timestamps of date-times in range gives the date-times.
pub proof fn lemma_proto_timestamps_roundtrip(ds: Seq<UtcDateTime>)
    requires
        forall|i: int| 0 <= i < ds.len() ==> timestamp_in_range(#[trigger] ds[i].seconds(), ds[i].subsec_nanos()),
    ensures
        convert_all(ds.map_values(|d: UtcDateTime| proto_timestamp_of(d)), datetime_conv()) == Ok::<Seq<UtcDateTime>, ProtoConversionError>(ds),
    decreases ds.len(),
{
    let ps = ds.map_values(|d: UtcDateTime| proto_timestamp_of(d));
    if ds.len() > 0 {
        let rest = ds.drop_last();
        lemma_proto_timestamps_roundtrip(rest);
        assert(ps.drop_last() =~= rest.map_values(|d: UtcDateTime| proto_timestamp_of(d)));
        lemma_proto_timestamp_roundtrip(ds.last());
        assert(rest.push(ds.last()) =~= ds);
    } else {
        assert(ds =~= Seq::empty());
    }
}

/// Converting a timestamp operator value into its proto message and back
/// gives the operator value again.
pub proof fn lemma_timestamp_op_proto_roundtrip(m: OpModel<UtcDateTime>, p: ProtoOpValTimestamp)
    requires
        op_model_in_range(m),
        is_proto_timestamp_op(m, p),
    ensures
        proto_op_val_timestamp_result(p) == Ok::<OpModel<UtcDateTime>, ProtoConversionError>(m),
{
    match m {
        OpModel::Eq(d) => lemma_proto_timestamp_roundtrip(d),
        OpModel::Not(d) => lemma_proto_timestamp_roundtrip(d),
        OpModel::In(ds) => lemma_proto_timestamps_roundtrip(ds),
        OpModel::NotIn(ds) => lemma_proto_timestamps_roundtrip(ds),
        OpModel::Lt(d) => lemma_proto_timestamp_roundtrip(d),
        OpModel::Lte(d) => lemma_proto_timestamp_roundtrip(d),
        OpModel::Gt(d) => lemma_proto_timestamp_roundtrip(d),
        OpModel::Gte(d) => lemma_proto_timestamp_roundtrip(d),
        OpModel::Null(_) => {},
    }
}

// -- Every conversion keeps the operator that the message names

/// The same operator with each value converted by `f`: a single value
/// converts, a list converts item by item (the first failure gives the
/// error), and `Null` keeps its flag.
pub open spec fn convert_op_model<A, B, E>(m: OpModel<A>, f: spec_fn(A) -> Result<B, E>) -> Result<OpModel<B>, E> {
    match m {
        OpModel::Eq(x) => match f(x) {
            Ok(v) => Ok(OpModel::Eq(v)),
            Err(e) => Err(e),
        },
        OpModel::Not(x) => match f(x) {
            Ok(v) => Ok(OpModel::Not(v)),
            Err(e) => Err(e),
        },
        OpModel::In(xs) => match convert_all(xs, f) {
            Ok(vs) => Ok(OpModel::In(vs)),
            Err(e) => Err(e),
        },
        OpModel::NotIn(xs) => match convert_all(xs, f) {
            Ok(vs) => Ok(OpModel::NotIn(vs)),
            Err(e) => Err(e),
        },
        OpModel::Lt(x) => match f(x) {
            Ok(v) => Ok(OpModel::Lt(v)),
            Err(e) => Err(e),
        },
        OpModel::Lte(x) => match f(x) {
            Ok(v) => Ok(OpModel::Lte(v)),
            Err(e) => Err(e),
        },
        OpModel::Gt(x) => match f(x) {
            Ok(v) => Ok(OpModel::Gt(v)),
            Err(e) => Err(e),
        },
        OpModel::Gte(x) => match f(x) {
            Ok(v) => Ok(OpModel::Gte(v)),
            Err(e) => Err(e),
        },
        OpModel::Null(b) => Ok(OpModel::Null(b)),
    }
}

/// The same operator with each value mapped by `f`.
pub open spec fn map_op_model<A, B>(m: OpModel<A>, f: spec_fn(A) -> B) -> OpModel<B> {
    match m {
        OpModel::Eq(x) => OpModel::Eq(f(x)),
        OpModel::Not(x) => OpModel::Not(f(x)),
        OpModel::In(xs) => OpModel::In(xs.map_values(f)),
        OpModel::NotIn(xs) => OpModel::NotIn(xs.map_values(f)),
        OpModel::Lt(x) => OpModel::Lt(f(x)),
        OpModel::Lte(x) => OpModel::Lte(f(x)),
        OpModel::Gt(x) => OpModel::Gt(f(x)),
        OpModel::Gte(x) => OpModel::Gte(f(x)),
        OpModel::Null(b) => OpModel::Null(b),
    }
}

/// A string operator message converts to the operator of the same name,
/// given the same string, strings or flag.
pub proof fn lemma_string_op_kept(p: ProtoOpValString)
    ensures
        p.op matches Some(op) ==> (op_val_string_result(p) matches Ok(o) && o@ == op@),
{
}

/// A 64-bit integer operator message converts to the same operator over the
/// same values.
pub proof fn lemma_int64_op_kept(p: ProtoOpValInt64)
    ensures
        p.op matches Some(op) ==> (proto_op_val_int64_result(p) matches Ok(o) && o@ == op@),
{
}

/// A 32-bit integer operator message converts to the same operator over the
/// same values.
pub proof fn lemma_int32_op_kept(p: ProtoOpValInt32)
    ensures
        p.op matches Some(op) ==> (proto_op_val_int32_result(p) matches Ok(o) && o@ == op@),
{
}

/// A float operator message converts to the same operator over the same
/// values.
pub proof fn lemma_float64_op_kept(p: ProtoOpValFloat64)
    ensures
        p.op matches Some(op) ==> (proto_op_val_float64_result(p) matches Ok(o) && o@ == op@),
{
}

/// A boolean operator message converts to the same operator over the same
/// value.
pub proof fn lemma_bool_op_kept(p: ProtoOpValBool)
    ensures
        p.op matches Some(op) ==> (proto_op_val_bool_result(p) matches Ok(o) && o@ == op@),
{
}

/// A JSON operator message converts to the same operator over the parsed
/// values, or fails with the parse error of its (first failing) text.
pub proof fn lemma_json_value_op_kept(p: ProtoOpValJsonValue)
    ensures
        p.op matches Some(op) ==> proto_op_val_json_value_result(p) == convert_op_model(op@, json_value_conv()),
{
}

/// A UUID operator message converts to the same operator over the decoded
/// UUIDs, or fails with the error of its (first failing) text.
pub proof fn lemma_uuid_op_kept(p: ProtoOpValUuid)
    ensures
        p.op matches Some(op) ==> proto_op_val_uuid_result(p) == convert_op_model(op@, uuid_conv()),
{
}

/// A timestamp operator message converts to the same operator over the
/// date-times of its timestamps, or fails with the error of its (first
/// failing) timestamp.
pub proof fn lemma_timestamp_op_kept(p: ProtoOpValTimestamp)
    ensures
        p.op matches Some(op) ==> proto_op_val_timestamp_result(p) == convert_op_model(op@, datetime_conv()),
{
}

/// The message of a timestamp operator value names the same operator, over
/// the proto timestamps of its date-times.
pub proof fn lemma_timestamp_message_keeps_op(m: OpModel<UtcDateTime>, p: ProtoOpValTimestamp)
    requires
        is_proto_timestamp_op(m, p),
    ensures
        p.op matches Some(op) && op@ == map_op_model(m, |d: UtcDateTime| proto_timestamp_of(d)),
{
}

/// An order-by message converts to the order it names, on the column it
/// names; list options keep their limit and offset, and their order-bys one
/// for one and in order.
pub proof fn lemma_list_options_kept(p: ProtoListOptions)
    ensures
        list_options_of(p).limit == p.limit,
        list_options_of(p).offset == p.offset,
        p.order_bys is None <==> list_options_of(p).order_bys is None,
        p.order_bys matches Some(obs) ==> {
            &&& list_options_of(p).order_bys->0.len() == obs.order_bys@.len()
            &&& forall|i: int| 0 <= i < obs.order_bys@.len() ==>
                ((#[trigger] obs.order_bys@[i]).direction matches Some(d) ==> list_options_of(p).order_bys->0[i] == d@)
        },
{
}

/// Node options keep each cast where it was: the value's cast stays the
/// value's, the column's stays the column's.
pub proof fn lemma_node_options_kept(o: ProtoFilterNodeOptions)
    ensures
        options_of(Some(o)).cast_as == o.cast_as,
        options_of(Some(o)).cast_column_as == o.cast_column_as,
        options_of(None) == no_cast_options(),
{
}

/// An order-by message with no direction is ascending on the empty column name.
pub proof fn lemma_order_by_default(p: ProtoOrderBy)
    ensures
        p.direction is None ==> order_by_of(p) == OrderByModel::Asc(Seq::empty()),
        p.direction matches Some(d) ==> order_by_of(p) == d@,
{
}

} // verus!
