//! Persistent application configuration.
//!
//! The settings that the surrounding command-line tool stores between runs:
//! the server URL and the API key. Reading and writing the on-disk TOML file
//! is the caller's business; the library only defines the configuration data.

use vstd::prelude::*;

verus! {

/// Application configuration.
pub struct Config {
    /// Server connection settings.
    pub server: ServerConfig,
}

/// Server connection configuration.
pub struct ServerConfig {
    /// Immich server URL.
    pub url: Option<String>,
    /// API key for authentication.
    pub api_key: Option<String>,
}

impl Default for ServerConfig {
    /// An empty server configuration: no URL, no API key.
    fn default() -> (r: Self)
        ensures
            r.url is None,
            r.api_key is None,
    {
        ServerConfig { url: None, api_key: None }
    }
}

impl Default for Config {
    /// The default configuration carries an empty server section.
    fn default() -> (r: Self)
        ensures
            r.server.url is None,
            r.server.api_key is None,
    {
        Config { server: ServerConfig { url: None, api_key: None } }
    }
}

} // verus!
