//! The `oneof` of [`crate::ProtoOpValBool`].

use crate::op_model::OpModel;
use vstd::prelude::*;

verus! {

#[derive(Debug, Clone, Copy, PartialEq, Eq, Structural)]
pub enum Op {
    Eq(bool),
    Not(bool),
    Null(bool),
}

impl View for Op {
    type V = OpModel<bool>;

    /// The operator that the message names, over the value it carries.
    open spec fn view(&self) -> OpModel<bool> {
        match self {
            Op::Eq(v) => OpModel::Eq(*v),
            Op::Not(v) => OpModel::Not(*v),
            Op::Null(b) => OpModel::Null(*b),
        }
    }
}

} // verus!
