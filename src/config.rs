//! The persisted connection settings.
use vstd::prelude::*;
use crate::error::ESQError;

verus! {

/// Where the service is, and the credentials for basic authentication.
#[derive(Debug, Clone)]
pub struct DefaultConfig {
    pub url: String,
    pub username: Option<String>,
    pub password: Option<String>,
}

/// The whole configuration file.
#[derive(Debug, Clone)]
pub struct Config {
    pub default: DefaultConfig,
}

/// What a command that needs the configuration says where there is none.
pub const NO_CONFIG_MESSAGE: &'static str = "No configuration found. Please login first.";

/// The user name and password to authenticate with; both must be set.
pub fn basic_auth_credentials(config: &Config) -> (r: Option<(String, String)>)
    ensures
        match (config.default.username, config.default.password) {
            (Some(u), Some(p)) => r matches Some((a, b)) && a@ == u@ && b@ == p@,
            _ => r is None,
        },
{
    match (&config.default.username, &config.default.password) {
        (Some(u), Some(p)) => Some((u.clone(), p.clone())),
        _ => None,
    }
}

/// The configuration a command needs, or the error that asks the user to log in.
pub fn require_config(config: Option<Config>) -> (r: Result<Config, ESQError>)
    ensures
        match config {
            Some(c) => r == Ok::<Config, ESQError>(c),
            None => r matches Err(ESQError::ConfigError(m)) && m@ == NO_CONFIG_MESSAGE@,
        },
{
    match config {
        Some(c) => Ok(c),
        None => Err(
            ESQError::ConfigError(String::from_str(NO_CONFIG_MESSAGE)),
        ),
    }
}

} // verus!
