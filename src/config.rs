//! Platform configuration and its defaults.

use vstd::prelude::*;
use crate::text::contains_char;

verus! {

/// Where the API listens.
pub struct ServerConfig {
    pub host: String,
    pub port: u16,
    pub tls_enabled: bool,
}

/// How the platform reaches its database.
pub struct DatabaseConfig {
    pub url: String,
    pub max_connections: u32,
}

/// Limits and defaults for workspaces.
pub struct WorkspaceConfig {
    pub max_workspaces: u32,
    pub default_image: String,
}

/// The platform configuration.
pub struct Config {
    pub server: ServerConfig,
    pub database: DatabaseConfig,
    pub workspace: WorkspaceConfig,
}

pub const DEFAULT_PORT: u16 = 8080;
pub const DEFAULT_MAX_CONNECTIONS: u32 = 10;
pub const DEFAULT_MAX_WORKSPACES: u32 = 100;

impl Default for Config {
    /// Listens on all interfaces on port 8080 without TLS, with a local
    /// database and the full workspace image.
    fn default() -> (r: Config)
        ensures
            r.server.host@ == "0.0.0.0"@,
            r.server.port == DEFAULT_PORT,
            !r.server.tls_enabled,
            r.database.url@ == "postgresql://localhost:5432/gitpod"@,
            r.database.max_connections == DEFAULT_MAX_CONNECTIONS,
            r.workspace.max_workspaces == DEFAULT_MAX_WORKSPACES,
            r.workspace.default_image@ == "gitpod/workspace-full"@,
    {
        Config {
            server: ServerConfig { host: String::from_str("0.0.0.0"), port: DEFAULT_PORT, tls_enabled: false },
            database: DatabaseConfig {
                url: String::from_str("postgresql://localhost:5432/gitpod"),
                max_connections: DEFAULT_MAX_CONNECTIONS,
            },
            workspace: WorkspaceConfig {
                max_workspaces: DEFAULT_MAX_WORKSPACES,
                default_image: String::from_str("gitpod/workspace-full"),
            },
        }
    }
}

/// A rough check of an e-mail address: it holds an `@` and a dot.
pub fn validate_email(email: &str) -> (r: bool)
    ensures
        r == (email@.contains('@') && email@.contains('.')),
{
    contains_char(email, '@') && contains_char(email, '.')
}

} // verus!
