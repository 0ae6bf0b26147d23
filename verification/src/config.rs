//! The agent's configuration, as the configuration file holds it. Finding,
//! reading and writing the file is the caller's.

use vstd::prelude::*;

verus! {

/// How the agent authenticates, and to which server.
#[derive(Debug, Clone, PartialEq, Eq)]
pub struct AuthConfig {
    pub token: Option<String>,
    pub server: Option<String>,
}

impl Default for AuthConfig {
    fn default() -> (r: Self)
        ensures
            r.token is None,
            r.server is None,
    {
        AuthConfig { token: None, server: None }
    }
}

/// The configuration.
#[derive(Debug, Clone, PartialEq, Eq)]
pub struct Config {
    pub auth: AuthConfig,
}

impl Default for Config {
    fn default() -> (r: Self)
        ensures
            r.auth.token is None,
            r.auth.server is None,
    {
        Config { auth: AuthConfig { token: None, server: None } }
    }
}

} // verus!
