//! Operator values over strings, integers, floats, booleans and JSON values.

use crate::op_model::OpModel;
use vstd::prelude::*;

verus! {

/// Operator values over strings.
#[derive(Debug, Clone, PartialEq)]
pub enum OpValString {
    Eq(String),
    Not(String),
    In(Vec<String>),
    NotIn(Vec<String>),
    Lt(String),
    Lte(String),
    Gt(String),
    Gte(String),
    Contains(String),
    NotContains(String),
    ContainsAny(Vec<String>),
    NotContainsAny(Vec<String>),
    ContainsAll(Vec<String>),
    StartsWith(String),
    NotStartsWith(String),
    StartsWithAny(Vec<String>),
    NotStartsWithAny(Vec<String>),
    EndsWith(String),
    NotEndsWith(String),
    EndsWithAny(Vec<String>),
    NotEndsWithAny(Vec<String>),
    Empty(bool),
    Null(bool),
    ContainsCi(String),
    NotContainsCi(String),
    StartsWithCi(String),
    NotStartsWithCi(String),
    EndsWithCi(String),
    NotEndsWithCi(String),
    Ilike(String),
}

/// Operator values over 64-bit integers.
#[derive(Debug, Clone, PartialEq)]
pub enum OpValInt64 {
    Eq(i64),
    Not(i64),
    In(Vec<i64>),
    NotIn(Vec<i64>),
    Lt(i64),
    Lte(i64),
    Gt(i64),
    Gte(i64),
    Null(bool),
}

/// Operator values over 32-bit integers.
#[derive(Debug, Clone, PartialEq)]
pub enum OpValInt32 {
    Eq(i32),
    Not(i32),
    In(Vec<i32>),
    NotIn(Vec<i32>),
    Lt(i32),
    Lte(i32),
    Gt(i32),
    Gte(i32),
    Null(bool),
}

/// A 64-bit float, held as its IEEE-754 bit pattern (`f64::to_bits`), so that
/// the value passes through unchanged.
#[derive(Debug, Clone, Copy, PartialEq, Eq, Structural, Hash)]
pub struct Float64(pub u64);

/// Operator values over 64-bit floats.
#[derive(Debug, Clone, PartialEq)]
pub enum OpValFloat64 {
    Eq(Float64),
    Not(Float64),
    In(Vec<Float64>),
    NotIn(Vec<Float64>),
    Lt(Float64),
    Lte(Float64),
    Gt(Float64),
    Gte(Float64),
    Null(bool),
}

/// Operator values over booleans.
#[derive(Debug, Clone, Copy, PartialEq, Eq, Structural)]
pub enum OpValBool {
    Eq(bool),
    Not(bool),
    Null(bool),
}

/// Operator values over arbitrary JSON values.
#[derive(Debug, PartialEq)]
pub enum OpValValue {
    Eq(serde_json::Value),
    Not(serde_json::Value),
    In(Vec<serde_json::Value>),
    NotIn(Vec<serde_json::Value>),
    Lt(serde_json::Value),
    Lte(serde_json::Value),
    Gt(serde_json::Value),
    Gte(serde_json::Value),
    Null(bool),
}

impl View for OpValValue {
    type V = OpModel<serde_json::Value>;

    open spec fn view(&self) -> OpModel<serde_json::Value> {
        match self {
            OpValValue::Eq(v) => OpModel::Eq(*v),
            OpValValue::Not(v) => OpModel::Not(*v),
            OpValValue::In(vs) => OpModel::In(vs@),
            OpValValue::NotIn(vs) => OpModel::NotIn(vs@),
            OpValValue::Lt(v) => OpModel::Lt(*v),
            OpValValue::Lte(v) => OpModel::Lte(*v),
            OpValValue::Gt(v) => OpModel::Gt(*v),
            OpValValue::Gte(v) => OpModel::Gte(*v),
            OpValValue::Null(b) => OpModel::Null(*b),
        }
    }
}

impl View for OpValInt64 {
    type V = OpModel<i64>;

    open spec fn view(&self) -> OpModel<i64> {
        match self {
            OpValInt64::Eq(v) => OpModel::Eq(*v),
            OpValInt64::Not(v) => OpModel::Not(*v),
            OpValInt64::In(vs) => OpModel::In(vs@),
            OpValInt64::NotIn(vs) => OpModel::NotIn(vs@),
            OpValInt64::Lt(v) => OpModel::Lt(*v),
            OpValInt64::Lte(v) => OpModel::Lte(*v),
            OpValInt64::Gt(v) => OpModel::Gt(*v),
            OpValInt64::Gte(v) => OpModel::Gte(*v),
            OpValInt64::Null(b) => OpModel::Null(*b),
        }
    }
}

impl View for OpValInt32 {
    type V = OpModel<i32>;

    open spec fn view(&self) -> OpModel<i32> {
        match self {
            OpValInt32::Eq(v) => OpModel::Eq(*v),
            OpValInt32::Not(v) => OpModel::Not(*v),
            OpValInt32::In(vs) => OpModel::In(vs@),
            OpValInt32::NotIn(vs) => OpModel::NotIn(vs@),
            OpValInt32::Lt(v) => OpModel::Lt(*v),
            OpValInt32::Lte(v) => OpModel::Lte(*v),
            OpValInt32::Gt(v) => OpModel::Gt(*v),
            OpValInt32::Gte(v) => OpModel::Gte(*v),
            OpValInt32::Null(b) => OpModel::Null(*b),
        }
    }
}

impl View for OpValFloat64 {
    type V = OpModel<Float64>;

    open spec fn view(&self) -> OpModel<Float64> {
        match self {
            OpValFloat64::Eq(v) => OpModel::Eq(*v),
            OpValFloat64::Not(v) => OpModel::Not(*v),
            OpValFloat64::In(vs) => OpModel::In(vs@),
            OpValFloat64::NotIn(vs) => OpModel::NotIn(vs@),
            OpValFloat64::Lt(v) => OpModel::Lt(*v),
            OpValFloat64::Lte(v) => OpModel::Lte(*v),
            OpValFloat64::Gt(v) => OpModel::Gt(*v),
            OpValFloat64::Gte(v) => OpModel::Gte(*v),
            OpValFloat64::Null(b) => OpModel::Null(*b),
        }
    }
}

impl View for OpValBool {
    type V = OpModel<bool>;

    open spec fn view(&self) -> OpModel<bool> {
        match self {
            OpValBool::Eq(v) => OpModel::Eq(*v),
            OpValBool::Not(v) => OpModel::Not(*v),
            OpValBool::Null(b) => OpModel::Null(*b),
        }
    }
}

/// The operators over strings, by name.
pub enum StringOpKind {
    Eq,
    Not,
    In,
    NotIn,
    Lt,
    Lte,
    Gt,
    Gte,
    Contains,
    NotContains,
    ContainsAny,
    NotContainsAny,
    ContainsAll,
    StartsWith,
    NotStartsWith,
    StartsWithAny,
    NotStartsWithAny,
    EndsWith,
    NotEndsWith,
    EndsWithAny,
    NotEndsWithAny,
    Empty,
    Null,
    ContainsCi,
    NotContainsCi,
    StartsWithCi,
    NotStartsWithCi,
    EndsWithCi,
    NotEndsWithCi,
    Ilike,
}

/// What a string operator is given: one string, a list of them, or a flag.
pub enum StringArg {
    One(String),
    Many(Seq<String>),
    Flag(bool),
}

impl View for OpValString {
    type V = (StringOpKind, StringArg);

    /// The operator by name, and what it is given.
    open spec fn view(&self) -> (StringOpKind, StringArg) {
        match self {
            OpValString::Eq(v) => (StringOpKind::Eq, StringArg::One(*v)),
            OpValString::Not(v) => (StringOpKind::Not, StringArg::One(*v)),
            OpValString::In(l) => (StringOpKind::In, StringArg::Many(l@)),
            OpValString::NotIn(l) => (StringOpKind::NotIn, StringArg::Many(l@)),
            OpValString::Lt(v) => (StringOpKind::Lt, StringArg::One(*v)),
            OpValString::Lte(v) => (StringOpKind::Lte, StringArg::One(*v)),
            OpValString::Gt(v) => (StringOpKind::Gt, StringArg::One(*v)),
            OpValString::Gte(v) => (StringOpKind::Gte, StringArg::One(*v)),
            OpValString::Contains(v) => (StringOpKind::Contains, StringArg::One(*v)),
            OpValString::NotContains(v) => (StringOpKind::NotContains, StringArg::One(*v)),
            OpValString::ContainsAny(l) => (StringOpKind::ContainsAny, StringArg::Many(l@)),
            OpValString::NotContainsAny(l) => (StringOpKind::NotContainsAny, StringArg::Many(l@)),
            OpValString::ContainsAll(l) => (StringOpKind::ContainsAll, StringArg::Many(l@)),
            OpValString::StartsWith(v) => (StringOpKind::StartsWith, StringArg::One(*v)),
            OpValString::NotStartsWith(v) => (StringOpKind::NotStartsWith, StringArg::One(*v)),
            OpValString::StartsWithAny(l) => (StringOpKind::StartsWithAny, StringArg::Many(l@)),
            OpValString::NotStartsWithAny(l) => (StringOpKind::NotStartsWithAny, StringArg::Many(l@)),
            OpValString::EndsWith(v) => (StringOpKind::EndsWith, StringArg::One(*v)),
            OpValString::NotEndsWith(v) => (StringOpKind::NotEndsWith, StringArg::One(*v)),
            OpValString::EndsWithAny(l) => (StringOpKind::EndsWithAny, StringArg::Many(l@)),
            OpValString::NotEndsWithAny(l) => (StringOpKind::NotEndsWithAny, StringArg::Many(l@)),
            OpValString::Empty(b) => (StringOpKind::Empty, StringArg::Flag(*b)),
            OpValString::Null(b) => (StringOpKind::Null, StringArg::Flag(*b)),
            OpValString::ContainsCi(v) => (StringOpKind::ContainsCi, StringArg::One(*v)),
            OpValString::NotContainsCi(v) => (StringOpKind::NotContainsCi, StringArg::One(*v)),
            OpValString::StartsWithCi(v) => (StringOpKind::StartsWithCi, StringArg::One(*v)),
            OpValString::NotStartsWithCi(v) => (StringOpKind::NotStartsWithCi, StringArg::One(*v)),
            OpValString::EndsWithCi(v) => (StringOpKind::EndsWithCi, StringArg::One(*v)),
            OpValString::NotEndsWithCi(v) => (StringOpKind::NotEndsWithCi, StringArg::One(*v)),
            OpValString::Ilike(v) => (StringOpKind::Ilike, StringArg::One(*v)),
        }
    }
}

} // verus!
