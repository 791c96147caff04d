use vstd::prelude::*;

verus! {

/// Service settings: where recordings are written, the registry database,
/// and the address the HTTP server binds.
#[derive(Debug)]
pub struct Config {
    pub recording_directory: String,
    pub database: DatabaseConfig,
    pub server: ServerConfig,
}

#[derive(Debug)]
pub struct DatabaseConfig {
    pub url: String,
}

#[derive(Debug)]
pub struct ServerConfig {
    pub host: String,
    pub port: u16,
}

/// The host bound when none is configured: every interface.
pub fn default_host() -> (r: String)
    ensures
        r@ == "0.0.0.0"@,
{
    String::from_str("0.0.0.0")
}

/// The port bound when none is configured.
pub fn default_port() -> (r: u16)
    ensures
        r == 3000,
{
    3000
}

impl ServerConfig {
    /// The server settings with every default applied.
    pub fn with_defaults() -> (r: ServerConfig)
        ensures
            r.host@ == "0.0.0.0"@,
            r.port == 3000,
    {
        ServerConfig { host: default_host(), port: default_port() }
    }
}

} // verus!
