//! Database connectors.
use vstd::prelude::*;

use crate::request::ConnectionInfo;

verus! {

/// A connector to a PostgreSQL database.
pub struct PostgresConnector {
    connection_info: ConnectionInfo,
}

impl PostgresConnector {
    /// The connection parameters this connector was made with.
    pub closed spec fn info(&self) -> ConnectionInfo {
        self.connection_info
    }

    /// Makes a connector for the given connection parameters.
    pub fn new(connection_info: ConnectionInfo) -> (r: Self)
        ensures
            r.info() == connection_info,
    {
        PostgresConnector { connection_info }
    }

    /// The connection parameters this connector was made with.
    pub fn connection_info(&self) -> (r: &ConnectionInfo)
        ensures
            *r == self.info(),
    {
        &self.connection_info
    }

    /// The connector's name.
    pub fn name(&self) -> (r: &'static str)
        ensures
            r@ == "postgres"@,
    {
        "postgres"
    }
}

} // verus!
