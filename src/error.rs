//! The errors that the commands report.
use vstd::prelude::*;

verus! {

/// What went wrong; each variant carries a message for the user.
#[derive(Debug, Clone)]
pub enum ESQError {
    ConfigError(String),
    AuthError,
    NetworkError(String),
    ParseError(String),
    DateParseError(String),
    IOError(String),
    ValidationError(String),
    ESError(String),
    NotYetImplemented(String),
}

/// The text before the message of each kind of error.
pub open spec fn prefix_of(e: ESQError) -> Seq<char> {
    match e {
        ESQError::ConfigError(_) => "Configuration error: "@,
        ESQError::AuthError => "Authentication failed"@,
        ESQError::NetworkError(_) => "Network error: "@,
        ESQError::ParseError(_) => "Parse error: "@,
        ESQError::DateParseError(_) => "Date error: "@,
        ESQError::IOError(_) => "IO error: "@,
        ESQError::ValidationError(_) => "Validation error: "@,
        ESQError::ESError(_) => "Elasticsearch error: "@,
        ESQError::NotYetImplemented(_) => "Not yet implemented: "@,
    }
}

/// Where the accepted date formats are listed.
pub const DATE_FORMATS_HINT: &'static str =
    "\nSee accepted formats at https://docs.rs/dateparser/latest/dateparser/#accepted-date-formats";

impl ESQError {
    /// The message of the error, as it is shown to the user.
    pub fn message(&self) -> (r: String)
        ensures
            r@ == match self {
                ESQError::AuthError => prefix_of(*self),
                ESQError::DateParseError(m) => prefix_of(*self) + m@ + DATE_FORMATS_HINT@,
                ESQError::ConfigError(m) | ESQError::NetworkError(m) | ESQError::ParseError(m)
                | ESQError::IOError(m) | ESQError::ValidationError(m) | ESQError::ESError(m)
                | ESQError::NotYetImplemented(m) => prefix_of(*self) + m@,
            },
    {
        match self {
            ESQError::ConfigError(m) => String::from_str("Configuration error: ").concat(m.as_str()),
            ESQError::AuthError => String::from_str("Authentication failed"),
            ESQError::NetworkError(m) => String::from_str("Network error: ").concat(m.as_str()),
            ESQError::ParseError(m) => String::from_str("Parse error: ").concat(m.as_str()),
            ESQError::DateParseError(m) => String::from_str("Date error: ").concat(m.as_str()).concat(
                DATE_FORMATS_HINT,
            ),
            ESQError::IOError(m) => String::from_str("IO error: ").concat(m.as_str()),
            ESQError::ValidationError(m) => String::from_str("Validation error: ").concat(m.as_str()),
            ESQError::ESError(m) => String::from_str("Elasticsearch error: ").concat(m.as_str()),
            ESQError::NotYetImplemented(m) => String::from_str("Not yet implemented: ").concat(
                m.as_str(),
            ),
        }
    }
}

} // verus!
