//! Requests to the service.
use vstd::prelude::*;

verus! {

/// Database connection parameters.
#[derive(Debug, Clone, PartialEq, Eq)]
pub struct ConnectionInfo {
    pub host: String,
    pub port: u16,
    pub database: String,
    pub user: String,
    pub password: String,
    pub schema: Option<String>,
}

/// A query to run against a manifest.
#[derive(Debug, Clone, PartialEq, Eq)]
pub struct QueryRequest {
    pub sql: String,
    /// The manifest as base64-encoded JSON.
    pub manifest_str: String,
    pub connection_info: ConnectionInfo,
}

/// A query to plan against a manifest without running it.
#[derive(Debug, Clone, PartialEq, Eq)]
pub struct DryPlanRequest {
    pub sql: String,
    /// The manifest as base64-encoded JSON.
    pub manifest_str: String,
    pub connection_info: Option<ConnectionInfo>,
}

} // verus!
