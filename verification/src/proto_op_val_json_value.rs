//! The `oneof` of [`crate::ProtoOpValJsonValue`].

use crate::StringList;
use crate::op_model::OpModel;
use vstd::prelude::*;

verus! {

#[derive(Debug, Clone, PartialEq)]
pub enum Op {
    Eq(String),
    Not(String),
    In(StringList),
    NotIn(StringList),
    Lt(String),
    Lte(String),
    Gt(String),
    Gte(String),
    Null(bool),
}

impl View for Op {
    type V = OpModel<String>;

    /// The operator that the message names, over the values it carries.
    open spec fn view(&self) -> OpModel<String> {
        match self {
            Op::Eq(v) => OpModel::Eq(*v),
            Op::Not(v) => OpModel::Not(*v),
            Op::In(l) => OpModel::In(l.values@),
            Op::NotIn(l) => OpModel::NotIn(l.values@),
            Op::Lt(v) => OpModel::Lt(*v),
            Op::Lte(v) => OpModel::Lte(*v),
            Op::Gt(v) => OpModel::Gt(*v),
            Op::Gte(v) => OpModel::Gte(*v),
            Op::Null(b) => OpModel::Null(*b),
        }
    }
}

} // verus!
