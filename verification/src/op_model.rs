//! The shared shape of the comparison operators (`Eq`, `Not`, `In`, `NotIn`,
//! `Lt`, `Lte`, `Gt`, `Gte`, `Null`) and the JSON names of those operators.

use crate::text::str_equal;
use vstd::prelude::*;

verus! {

/// Mathematical model of an operator value over values of type `T`:
/// lists are sequences.
pub enum OpModel<T> {
    Eq(T),
    Not(T),
    In(Seq<T>),
    NotIn(Seq<T>),
    Lt(T),
    Lte(T),
    Gt(T),
    Gte(T),
    Null(bool),
}

/// The operators that compare against one value.
#[derive(Debug, Clone, Copy, PartialEq, Eq, Structural)]
pub enum CmpKind {
    Eq,
    Not,
    Lt,
    Lte,
    Gt,
    Gte,
}

/// The operators that compare against a list of values.
#[derive(Debug, Clone, Copy, PartialEq, Eq, Structural)]
pub enum ListKind {
    In,
    NotIn,
}

/// What a JSON operator name (`"$eq"`, `"$in"`, ...) stands for.
#[derive(Debug, Clone, Copy, PartialEq, Eq, Structural)]
pub enum JsonOpName {
    Single(CmpKind),
    List(ListKind),
    Null,
    Unknown,
}

/// The meaning of a JSON operator name.
pub open spec fn json_op_name_of(op: Seq<char>) -> JsonOpName {
    if op == "$eq"@ {
        JsonOpName::Single(CmpKind::Eq)
    } else if op == "$not"@ {
        JsonOpName::Single(CmpKind::Not)
    } else if op == "$in"@ {
        JsonOpName::List(ListKind::In)
    } else if op == "$notIn"@ {
        JsonOpName::List(ListKind::NotIn)
    } else if op == "$lt"@ {
        JsonOpName::Single(CmpKind::Lt)
    } else if op == "$lte"@ {
        JsonOpName::Single(CmpKind::Lte)
    } else if op == "$gt"@ {
        JsonOpName::Single(CmpKind::Gt)
    } else if op == "$gte"@ {
        JsonOpName::Single(CmpKind::Gte)
    } else if op == "$null"@ {
        JsonOpName::Null
    } else {
        JsonOpName::Unknown
    }
}

/// Classifies a JSON operator name.
pub fn json_op_name(op: &str) -> (r: JsonOpName)
    ensures
        r == json_op_name_of(op@),
{
    if str_equal(op, "$eq") {
        JsonOpName::Single(CmpKind::Eq)
    } else if str_equal(op, "$not") {
        JsonOpName::Single(CmpKind::Not)
    } else if str_equal(op, "$in") {
        JsonOpName::List(ListKind::In)
    } else if str_equal(op, "$notIn") {
        JsonOpName::List(ListKind::NotIn)
    } else if str_equal(op, "$lt") {
        JsonOpName::Single(CmpKind::Lt)
    } else if str_equal(op, "$lte") {
        JsonOpName::Single(CmpKind::Lte)
    } else if str_equal(op, "$gt") {
        JsonOpName::Single(CmpKind::Gt)
    } else if str_equal(op, "$gte") {
        JsonOpName::Single(CmpKind::Gte)
    } else if str_equal(op, "$null") {
        JsonOpName::Null
    } else {
        JsonOpName::Unknown
    }
}

/// The single-value operator `k` applied to `x`.
pub open spec fn single_op<T>(k: CmpKind, x: T) -> OpModel<T> {
    match k {
        CmpKind::Eq => OpModel::Eq(x),
        CmpKind::Not => OpModel::Not(x),
        CmpKind::Lt => OpModel::Lt(x),
        CmpKind::Lte => OpModel::Lte(x),
        CmpKind::Gt => OpModel::Gt(x),
        CmpKind::Gte => OpModel::Gte(x),
    }
}

/// The list operator `k` applied to `xs`.
pub open spec fn list_op<T>(k: ListKind, xs: Seq<T>) -> OpModel<T> {
    match k {
        ListKind::In => OpModel::In(xs),
        ListKind::NotIn => OpModel::NotIn(xs),
    }
}

/// The success side of a result, by its model.
pub open spec fn ok_view<T: View, E>(r: Result<T, E>) -> Result<T::V, E> {
    match r {
        Ok(t) => Ok(t@),
        Err(e) => Err(e),
    }
}

/// The single-value operator `k` applied to a converted value, or the error
/// of the conversion.
pub open spec fn single_of<T, E>(k: CmpKind, r: Result<T, E>) -> Result<OpModel<T>, E> {
    match r {
        Ok(v) => Ok(single_op(k, v)),
        Err(e) => Err(e),
    }
}

/// The list operator `k` applied to converted values, or the error of the
/// conversion.
pub open spec fn list_of<T, E>(k: ListKind, r: Result<Seq<T>, E>) -> Result<OpModel<T>, E> {
    match r {
        Ok(vs) => Ok(list_op(k, vs)),
        Err(e) => Err(e),
    }
}

} // verus!
