//! The manifest: catalogs, schemas, models, relationships, metrics, views
//! and access policies.
use vstd::prelude::*;
use std::sync::Arc;

use crate::cls::NormalizedExpr;
use crate::session::SessionProperty;

verus! {

/// The database a manifest is written for.
#[derive(Debug, Clone, Copy, PartialEq, Eq, Hash, Structural)]
pub enum DataSource {
    MySQL,
    Datafusion,
    Postgres,
    DuckDB,
}

impl Default for DataSource {
    fn default() -> (r: Self)
        ensures
            r == DataSource::Datafusion,
    {
        DataSource::Datafusion
    }
}

/// How a relationship joins its models.
#[derive(Debug, Clone, Copy, PartialEq, Eq, Hash, Structural)]
pub enum JoinType {
    OneToOne,
    OneToMany,
    ManyToOne,
    ManyToMany,
}

/// A unit of time that a time grain can be truncated to.
#[derive(Debug, Clone, Copy, PartialEq, Eq, Hash, Structural)]
pub enum TimeUnit {
    Year,
    Month,
    Day,
    Hour,
    Minute,
    Second,
}

/// The comparison of a column-level access control.
#[derive(Debug, Clone, Copy, PartialEq, Eq, Hash, Structural)]
pub enum ColumnLevelOperator {
    Equals,
    NotEquals,
    GreaterThan,
    LessThan,
    GreaterThanOrEquals,
    LessThanOrEquals,
}

/// A policy that restricts the rows of a model.
#[derive(Debug, Clone, PartialEq, Eq, Hash)]
pub struct RowLevelAccessControl {
    pub name: String,
    pub required_properties: Vec<SessionProperty>,
    /// An expression that evaluates to a boolean.
    pub condition: String,
}

/// A policy that hides a column unless a session property compares to a
/// threshold.
#[derive(Debug, Clone, PartialEq, Eq, Hash)]
pub struct ColumnLevelAccessControl {
    pub name: String,
    pub required_properties: Vec<SessionProperty>,
    pub operator: ColumnLevelOperator,
    pub threshold: NormalizedExpr,
}

/// A column of a model.
#[derive(Debug, Clone, PartialEq, Eq, Hash)]
pub struct Column {
    pub name: String,
    /// The declared type, `type` on the wire.
    pub column_type: String,
    pub relationship: Option<String>,
    pub is_calculated: bool,
    pub not_null: bool,
    pub expression: Option<String>,
    pub is_hidden: bool,
    pub column_level_access_control: Option<Arc<ColumnLevelAccessControl>>,
}

/// A model: a named set of columns over a table, a base object or SQL.
#[derive(Debug, Clone, PartialEq, Eq, Hash)]
pub struct Model {
    pub name: String,
    pub ref_sql: Option<String>,
    pub base_object: Option<String>,
    /// The canonical dotted form `catalog.schema.table`.
    pub table_reference: Option<String>,
    pub columns: Vec<Arc<Column>>,
    pub primary_key: Option<String>,
    pub cached: bool,
    pub refresh_time: Option<String>,
    pub row_level_access_controls: Vec<Arc<RowLevelAccessControl>>,
}

/// A join between two or more models.
#[derive(Debug, Clone, PartialEq, Eq, Hash)]
pub struct Relationship {
    pub name: String,
    pub models: Vec<String>,
    pub join_type: JoinType,
    pub condition: String,
}

/// A time dimension of a metric.
#[derive(Debug, Clone, PartialEq, Eq, Hash)]
pub struct TimeGrain {
    pub name: String,
    pub ref_column: String,
    pub date_parts: Vec<TimeUnit>,
}

/// An aggregate over a base object.
#[derive(Debug, Clone, PartialEq, Eq, Hash)]
pub struct Metric {
    pub name: String,
    pub base_object: String,
    pub dimension: Vec<Arc<Column>>,
    pub measure: Vec<Arc<Column>>,
    pub time_grain: Vec<TimeGrain>,
    pub cached: bool,
    pub refresh_time: Option<String>,
}

/// A named statement.
#[derive(Debug, Clone, PartialEq, Eq, Hash)]
pub struct View {
    pub name: String,
    pub statement: String,
}

/// The root of a semantic model.
#[derive(Debug, Clone, PartialEq, Eq, Hash)]
pub struct Manifest {
    pub catalog: String,
    pub schema: String,
    pub models: Vec<Arc<Model>>,
    pub relationships: Vec<Arc<Relationship>>,
    pub metrics: Vec<Arc<Metric>>,
    pub views: Vec<Arc<View>>,
    pub data_source: Option<DataSource>,
}

} // verus!
