//! The `oneof` of [`crate::ProtoOpValString`].

use crate::StringList;
use crate::filter::op_vals::{StringArg, StringOpKind};
use vstd::prelude::*;

verus! {

#[derive(Debug, Clone, PartialEq)]
pub enum Op {
    Eq(String),
    Not(String),
    In(StringList),
    NotIn(StringList),
    Lt(String),
    Lte(String),
    Gt(String),
    Gte(String),
    Contains(String),
    NotContains(String),
    ContainsAny(StringList),
    NotContainsAny(StringList),
    ContainsAll(StringList),
    StartsWith(String),
    NotStartsWith(String),
    StartsWithAny(StringList),
    NotStartsWithAny(StringList),
    EndsWith(String),
    NotEndsWith(String),
    EndsWithAny(StringList),
    NotEndsWithAny(StringList),
    Empty(bool),
    Null(bool),
    ContainsCi(String),
    NotContainsCi(String),
    StartsWithCi(String),
    NotStartsWithCi(String),
    EndsWithCi(String),
    NotEndsWithCi(String),
    Ilike(String),
}

impl View for Op {
    type V = (StringOpKind, StringArg);

    /// The operator that the message names, and what it is given.
    open spec fn view(&self) -> (StringOpKind, StringArg) {
        match self {
            Op::Eq(v) => (StringOpKind::Eq, StringArg::One(*v)),
            Op::Not(v) => (StringOpKind::Not, StringArg::One(*v)),
            Op::In(l) => (StringOpKind::In, StringArg::Many(l.values@)),
            Op::NotIn(l) => (StringOpKind::NotIn, StringArg::Many(l.values@)),
            Op::Lt(v) => (StringOpKind::Lt, StringArg::One(*v)),
            Op::Lte(v) => (StringOpKind::Lte, StringArg::One(*v)),
            Op::Gt(v) => (StringOpKind::Gt, StringArg::One(*v)),
            Op::Gte(v) => (StringOpKind::Gte, StringArg::One(*v)),
            Op::Contains(v) => (StringOpKind::Contains, StringArg::One(*v)),
            Op::NotContains(v) => (StringOpKind::NotContains, StringArg::One(*v)),
            Op::ContainsAny(l) => (StringOpKind::ContainsAny, StringArg::Many(l.values@)),
            Op::NotContainsAny(l) => (StringOpKind::NotContainsAny, StringArg::Many(l.values@)),
            Op::ContainsAll(l) => (StringOpKind::ContainsAll, StringArg::Many(l.values@)),
            Op::StartsWith(v) => (StringOpKind::StartsWith, StringArg::One(*v)),
            Op::NotStartsWith(v) => (StringOpKind::NotStartsWith, StringArg::One(*v)),
            Op::StartsWithAny(l) => (StringOpKind::StartsWithAny, StringArg::Many(l.values@)),
            Op::NotStartsWithAny(l) => (StringOpKind::NotStartsWithAny, StringArg::Many(l.values@)),
            Op::EndsWith(v) => (StringOpKind::EndsWith, StringArg::One(*v)),
            Op::NotEndsWith(v) => (StringOpKind::NotEndsWith, StringArg::One(*v)),
            Op::EndsWithAny(l) => (StringOpKind::EndsWithAny, StringArg::Many(l.values@)),
            Op::NotEndsWithAny(l) => (StringOpKind::NotEndsWithAny, StringArg::Many(l.values@)),
            Op::Empty(b) => (StringOpKind::Empty, StringArg::Flag(*b)),
            Op::Null(b) => (StringOpKind::Null, StringArg::Flag(*b)),
            Op::ContainsCi(v) => (StringOpKind::ContainsCi, StringArg::One(*v)),
            Op::NotContainsCi(v) => (StringOpKind::NotContainsCi, StringArg::One(*v)),
            Op::StartsWithCi(v) => (StringOpKind::StartsWithCi, StringArg::One(*v)),
            Op::NotStartsWithCi(v) => (StringOpKind::NotStartsWithCi, StringArg::One(*v)),
            Op::EndsWithCi(v) => (StringOpKind::EndsWithCi, StringArg::One(*v)),
            Op::NotEndsWithCi(v) => (StringOpKind::NotEndsWithCi, StringArg::One(*v)),
            Op::Ilike(v) => (StringOpKind::Ilike, StringArg::One(*v)),
        }
    }
}

} // verus!
