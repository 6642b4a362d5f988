//! The `oneof` of [`crate::ProtoOpValInt64`].

use crate::Int64List;
use crate::op_model::OpModel;
use vstd::prelude::*;

verus! {

#[derive(Debug, Clone, PartialEq)]
pub enum Op {
    Eq(i64),
    Not(i64),
    In(Int64List),
    NotIn(Int64List),
    Lt(i64),
    Lte(i64),
    Gt(i64),
    Gte(i64),
    Null(bool),
}

impl View for Op {
    type V = OpModel<i64>;

    /// The operator that the message names, over the values it carries.
    open spec fn view(&self) -> OpModel<i64> {
        match self {
            Op::Eq(v) => OpModel::Eq(*v),
            Op::Not(v) => OpModel::Not(*v),
            Op::In(l) => OpModel::In(l.values@),
            Op::NotIn(l) => OpModel::NotIn(l.values@),
            Op::Lt(v) => OpModel::Lt(*v),
            Op::Lte(v) => OpModel::Lte(*v),
            Op::Gt(v) => OpModel::Gt(*v),
            Op::Gte(v) => OpModel::Gte(*v),
            Op::Null(b) => OpModel::Null(*b),
        }
    }
}

} // verus!
