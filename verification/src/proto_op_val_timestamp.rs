//! The `oneof` of [`crate::ProtoOpValTimestamp`].

use crate::{ProtoTimestamp, TimestampList};
use crate::op_model::OpModel;
use vstd::prelude::*;

verus! {

#[derive(Debug, Clone, PartialEq)]
pub enum Op {
    Eq(ProtoTimestamp),
    Not(ProtoTimestamp),
    In(TimestampList),
    NotIn(TimestampList),
    Lt(ProtoTimestamp),
    Lte(ProtoTimestamp),
    Gt(ProtoTimestamp),
    Gte(ProtoTimestamp),
    Null(bool),
}

impl View for Op {
    type V = OpModel<crate::ProtoTimestamp>;

    /// The operator that the message names, over the values it carries.
    open spec fn view(&self) -> OpModel<crate::ProtoTimestamp> {
        match self {
            Op::Eq(v) => OpModel::Eq(*v),
            Op::Not(v) => OpModel::Not(*v),
            Op::In(l) => OpModel::In(l.values@),
            Op::NotIn(l) => OpModel::NotIn(l.values@),
            Op::Lt(v) => OpModel::Lt(*v),
            Op::Lte(v) => OpModel::Lte(*v),
            Op::Gt(v) => OpModel::Gt(*v),
            Op::Gte(v) => OpModel::Gte(*v),
            Op::Null(b) => OpModel::Null(*b),
        }
    }
}

} // verus!
