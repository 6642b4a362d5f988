//! The `oneof` of [`crate::ProtoOpValFloat64`].

use crate::filter::Float64;
use crate::Float64List;
use crate::op_model::OpModel;
use vstd::prelude::*;

verus! {

#[derive(Debug, Clone, PartialEq)]
pub enum Op {
    Eq(Float64),
    Not(Float64),
    In(Float64List),
    NotIn(Float64List),
    Lt(Float64),
    Lte(Float64),
    Gt(Float64),
    Gte(Float64),
    Null(bool),
}

impl View for Op {
    type V = OpModel<crate::filter::Float64>;

    /// The operator that the message names, over the values it carries.
    open spec fn view(&self) -> OpModel<crate::filter::Float64> {
        match self {
            Op::Eq(v) => OpModel::Eq(*v),
            Op::Not(v) => OpModel::Not(*v),
            Op::In(l) => OpModel::In(l.values@),
            Op::NotIn(l) => OpModel::NotIn(l.values@),
            Op::Lt(v) => OpModel::Lt(*v),
            Op::Lte(v) => OpModel::Lte(*v),
            Op::Gt(v) => OpModel::Gt(*v),
            Op::Gte(v) => OpModel::Gte(*v),
            Op::Null(b) => OpModel::Null(*b),
        }
    }
}

} // verus!
