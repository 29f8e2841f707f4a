//! Server configuration, as stored in `config.json` in the platform data
//! directory.

use vstd::prelude::*;

verus! {

/// The persisted server configuration.
#[derive(Debug, Clone)]
pub struct ServerConfig {
    /// A path that overrides the database file's.
    pub database_path: Option<String>,
    /// The chat agent to use; the default agent when absent.
    pub default_agent: Option<String>,
    /// Whether the web terminal is enabled; disabled when absent.
    pub terminal_enabled: Option<bool>,
}

impl Default for ServerConfig {
    /// The configuration with nothing set.
    fn default() -> (r: ServerConfig)
        ensures
            r.database_path is None,
            r.default_agent is None,
            r.terminal_enabled is None,
    {
        ServerConfig { database_path: None, default_agent: None, terminal_enabled: None }
    }
}

impl ServerConfig {
    /// Whether the terminal is enabled (disabled unless set).
    pub fn is_terminal_enabled(&self) -> (r: bool)
        ensures
            r == (self.terminal_enabled == Some(true)),
    {
        match self.terminal_enabled {
            Some(b) => b,
            None => false,
        }
    }
}

} // verus!
