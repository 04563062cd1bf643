//! Service settings.
use vstd::prelude::*;

verus! {

/// The port the service listens on unless told otherwise.
pub const DEFAULT_PORT: u16 = 8080;

/// Settings of the service.
#[derive(Debug, Clone, PartialEq, Eq)]
pub struct Settings {
    pub server: ServerConfig,
}

/// Settings of the HTTP server.
#[derive(Debug, Clone, Copy, PartialEq, Eq, Structural)]
pub struct ServerConfig {
    pub port: u16,
}

impl Default for Settings {
    fn default() -> (r: Self)
        ensures
            r.server.port == DEFAULT_PORT,
    {
        Settings { server: ServerConfig { port: DEFAULT_PORT } }
    }
}

} // verus!
