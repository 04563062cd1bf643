//! Responses of the service.
use vstd::prelude::*;

verus! {

/// The name and type of a result column.
#[derive(Debug, Clone, PartialEq, Eq)]
pub struct ColumnInfo {
    pub name: String,
    pub data_type: String,
}

/// The planned SQL of a dry-plan request.
#[derive(Debug, Clone, PartialEq, Eq)]
pub struct DryPlanResponse {
    pub sql: String,
}

} // verus!
