//! The `oneof` of [`crate::ProtoOpValInt32`].

use crate::Int32List;
use crate::op_model::OpModel;
use vstd::prelude::*;

verus! {

#[derive(Debug, Clone, PartialEq)]
pub enum Op {
    Eq(i32),
    Not(i32),
    In(Int32List),
    NotIn(Int32List),
    Lt(i32),
    Lte(i32),
    Gt(i32),
    Gte(i32),
    Null(bool),
}

impl View for Op {
    type V = OpModel<i32>;

    /// The operator that the message names, over the values it carries.
    open spec fn view(&self) -> OpModel<i32> {
        match self {
            Op::Eq(v) => OpModel::Eq(*v),
            Op::Not(v) => OpModel::Not(*v),
            Op::In(l) => OpModel::In(l.values@),
            Op::NotIn(l) => OpModel::NotIn(l.values@),
            Op::Lt(v) => OpModel::Lt(*v),
            Op::Lte(v) => OpModel::Lte(*v),
            Op::Gt(v) => OpModel::Gt(*v),
            Op::Gte(v) => OpModel::Gte(*v),
            Op::Null(b) => OpModel::Null(*b),
        }
    }
}

} // verus!
