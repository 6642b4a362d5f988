//! The `oneof` of [`crate::ProtoOrderBy`].

use crate::filter::OrderByModel;
use vstd::prelude::*;

verus! {

#[derive(Debug, Clone, PartialEq)]
pub enum Direction {
    Asc(String),
    Desc(String),
}

impl View for Direction {
    type V = OrderByModel;

    /// The order that the message names, on the column it names.
    open spec fn view(&self) -> OrderByModel {
        match self {
            Direction::Asc(col) => OrderByModel::Asc(col@),
            Direction::Desc(col) => OrderByModel::Desc(col@),
        }
    }
}

} // verus!
