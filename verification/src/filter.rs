//! The filter model: groups of filter nodes, the operator values of each
//! node, and list options.

pub mod op_val_timestamp;
pub mod op_val_uuid;
pub mod op_vals;


pub use self::op_val_timestamp::{OpValTimestamp, OpValsTimestamp};
pub use self::op_val_uuid::{OpValUuid, OpValsUuid};
pub use self::op_vals::{
    Float64, OpValBool, OpValFloat64, OpValInt32, OpValInt64, OpValString, OpValValue,
};

use crate::op_model::OpModel;
use crate::time::UtcDateTime;
use crate::uuid_value::Uuid;
use vstd::prelude::*;

verus! {

/// How a node's value and column are cast in SQL.
#[derive(Debug, Clone, PartialEq, Eq)]
pub struct FilterNodeOptions {
    /// SQL type the value is cast to.
    pub cast_as: Option<String>,
    /// SQL type the column is cast to.
    pub cast_column_as: Option<String>,
}

/// An operator value of any of the supported value types.
#[derive(Debug, PartialEq)]
pub enum OpVal {
    String(OpValString),
    Int64(OpValInt64),
    Int32(OpValInt32),
    Float64(OpValFloat64),
    Bool(OpValBool),
    Value(OpValValue),
    Uuid(OpValUuid),
    Timestamp(OpValTimestamp),
}

/// Model of [`OpVal`]: lists of JSON values, UUIDs and date-times become sequences.
pub enum OpValModel {
    String(OpValString),
    Int64(OpValInt64),
    Int32(OpValInt32),
    Float64(OpValFloat64),
    Bool(OpValBool),
    Value(OpModel<serde_json::Value>),
    Uuid(OpModel<Uuid>),
    Timestamp(OpModel<UtcDateTime>),
}

impl View for OpVal {
    type V = OpValModel;

    open spec fn view(&self) -> OpValModel {
        match self {
            OpVal::String(v) => OpValModel::String(*v),
            OpVal::Int64(v) => OpValModel::Int64(*v),
            OpVal::Int32(v) => OpValModel::Int32(*v),
            OpVal::Float64(v) => OpValModel::Float64(*v),
            OpVal::Bool(v) => OpValModel::Bool(*v),
            OpVal::Value(v) => OpValModel::Value(v@),
            OpVal::Uuid(v) => OpValModel::Uuid(v@),
            OpVal::Timestamp(v) => OpValModel::Timestamp(v@),
        }
    }
}

/// One filter node: operator values on a column `name`, optionally of a
/// relation `rel`, with cast options.
#[derive(Debug, PartialEq)]
pub struct FilterNode {
    pub rel: Option<String>,
    pub name: String,
    pub opvals: Vec<OpVal>,
    pub options: FilterNodeOptions,
}

/// Model of [`FilterNode`].
pub struct FilterNodeModel {
    pub rel: Option<String>,
    pub name: String,
    pub opvals: Seq<OpValModel>,
    pub options: FilterNodeOptions,
}

impl View for FilterNode {
    type V = FilterNodeModel;

    open spec fn view(&self) -> FilterNodeModel {
        FilterNodeModel {
            rel: self.rel,
            name: self.name,
            opvals: self.opvals@.map_values(|o: OpVal| o@),
            options: self.options,
        }
    }
}

/// The options with no cast set.
pub open spec fn no_cast_options() -> FilterNodeOptions {
    FilterNodeOptions { cast_as: None, cast_column_as: None }
}

impl Default for FilterNodeOptions {
    /// No casts.
    fn default() -> (r: FilterNodeOptions)
        ensures
            r == no_cast_options(),
    {
        FilterNodeOptions { cast_as: None, cast_column_as: None }
    }
}

impl FilterNode {
    /// A node on column `name` of relation `rel`, with no cast options.
    pub fn new_with_rel(rel: Option<String>, name: String, opvals: Vec<OpVal>) -> (r: FilterNode)
        ensures
            r.rel == rel,
            r.name == name,
            r.opvals == opvals,
            r.options == no_cast_options(),
    {
        FilterNode { rel, name, opvals, options: FilterNodeOptions { cast_as: None, cast_column_as: None } }
    }
}

/// A group of filter nodes, all of which must hold (AND).
#[derive(Debug, PartialEq)]
pub struct FilterGroup(Vec<FilterNode>);

impl View for FilterGroup {
    type V = Seq<FilterNodeModel>;

    open spec fn view(&self) -> Seq<FilterNodeModel> {
        self.spec_nodes().map_values(|n: FilterNode| n@)
    }
}

impl FilterGroup {
    /// The nodes of the group.
    pub closed spec fn spec_nodes(&self) -> Seq<FilterNode> {
        self.0@
    }

    /// The group of the given nodes.
    pub fn new(nodes: Vec<FilterNode>) -> (r: FilterGroup)
        ensures
            r.spec_nodes() == nodes@,
    {
        FilterGroup(nodes)
    }

    /// The nodes of the group.
    pub fn nodes(&self) -> (r: &Vec<FilterNode>)
        ensures
            r@ == self.spec_nodes(),
    {
        &self.0
    }

    /// The nodes of the group, by value.
    pub fn into_vec(self) -> (r: Vec<FilterNode>)
        ensures
            r@ == self.spec_nodes(),
    {
        self.0
    }
}

impl From<Vec<FilterNode>> for FilterGroup {
    fn from(val: Vec<FilterNode>) -> Self {
        FilterGroup(val)
    }
}

impl vstd::std_specs::convert::FromSpecImpl<Vec<FilterNode>> for FilterGroup {
    open spec fn obeys_from_spec() -> bool {
        true
    }

    closed spec fn from_spec(v: Vec<FilterNode>) -> FilterGroup {
        FilterGroup(v)
    }
}

/// Groups of filter nodes, any of which may hold (OR).
#[derive(Debug, PartialEq)]
pub struct FilterGroups(Vec<FilterGroup>);

impl View for FilterGroups {
    type V = Seq<Seq<FilterNodeModel>>;

    open spec fn view(&self) -> Seq<Seq<FilterNodeModel>> {
        self.spec_groups().map_values(|g: FilterGroup| g@)
    }
}

impl FilterGroups {
    /// The groups.
    pub closed spec fn spec_groups(&self) -> Seq<FilterGroup> {
        self.0@
    }

    /// The given groups.
    pub fn new(groups: Vec<FilterGroup>) -> (r: FilterGroups)
        ensures
            r.spec_groups() == groups@,
    {
        FilterGroups(groups)
    }

    /// The groups.
    pub fn groups(&self) -> (r: &Vec<FilterGroup>)
        ensures
            r@ == self.spec_groups(),
    {
        &self.0
    }

    /// The groups, by value.
    pub fn into_vec(self) -> (r: Vec<FilterGroup>)
        ensures
            r@ == self.spec_groups(),
    {
        self.0
    }
}

impl From<Vec<FilterGroup>> for FilterGroups {
    fn from(val: Vec<FilterGroup>) -> Self {
        FilterGroups(val)
    }
}

impl vstd::std_specs::convert::FromSpecImpl<Vec<FilterGroup>> for FilterGroups {
    open spec fn obeys_from_spec() -> bool {
        true
    }

    closed spec fn from_spec(v: Vec<FilterGroup>) -> FilterGroups {
        FilterGroups(v)
    }
}

/// The order of a listing by one column.
#[derive(Debug, Clone, PartialEq, Eq)]
pub enum OrderBy {
    Asc(String),
    Desc(String),
}

/// Model of [`OrderBy`]: the column name as text.
pub enum OrderByModel {
    Asc(Seq<char>),
    Desc(Seq<char>),
}

impl View for OrderBy {
    type V = OrderByModel;

    open spec fn view(&self) -> OrderByModel {
        match self {
            OrderBy::Asc(col) => OrderByModel::Asc(col@),
            OrderBy::Desc(col) => OrderByModel::Desc(col@),
        }
    }
}

/// The order of a listing, column by column.
#[derive(Debug, Clone, PartialEq, Eq)]
pub struct OrderBys(Vec<OrderBy>);

impl View for OrderBys {
    type V = Seq<OrderByModel>;

    open spec fn view(&self) -> Seq<OrderByModel> {
        self.spec_order_bys().map_values(|o: OrderBy| o@)
    }
}

impl OrderBys {
    /// The order-bys.
    pub closed spec fn spec_order_bys(&self) -> Seq<OrderBy> {
        self.0@
    }

    /// The order-bys, in order.
    pub fn new(v: Vec<OrderBy>) -> (r: OrderBys)
        ensures
            r.spec_order_bys() == v@,
    {
        OrderBys(v)
    }

    /// The order-bys, by reference.
    pub fn order_bys(&self) -> (r: &Vec<OrderBy>)
        ensures
            r@ == self.spec_order_bys(),
    {
        &self.0
    }

    /// The order-bys, by value.
    pub fn into_vec(self) -> (r: Vec<OrderBy>)
        ensures
            r@ == self.spec_order_bys(),
    {
        self.0
    }
}

/// Paging and ordering of a listing.
#[derive(Debug, Clone, PartialEq, Eq)]
pub struct ListOptions {
    pub limit: Option<i64>,
    pub offset: Option<i64>,
    pub order_bys: Option<OrderBys>,
}

/// Model of [`ListOptions`].
pub struct ListOptionsModel {
    pub limit: Option<i64>,
    pub offset: Option<i64>,
    pub order_bys: Option<Seq<OrderByModel>>,
}

impl View for ListOptions {
    type V = ListOptionsModel;

    open spec fn view(&self) -> ListOptionsModel {
        ListOptionsModel {
            limit: self.limit,
            offset: self.offset,
            order_bys: match self.order_bys {
                Some(obs) => Some(obs@),
                None => None,
            },
        }
    }
}

} // verus!
