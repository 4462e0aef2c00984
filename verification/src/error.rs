//! Errors of the library.
use vstd::prelude::*;

verus! {

/// What the library knows of a failed HTTP exchange.
#[derive(Debug, Clone)]
pub struct HttpFailure {
    /// The description of the failure.
    pub message: String,
    /// The request timed out.
    pub is_timeout: bool,
    /// The connection could not be made.
    pub is_connect: bool,
}

/// The errors of downloading and archiving.
#[derive(Debug)]
pub enum Error {
    /// Authentication failed.
    Auth(String),
    /// The API asked to wait before retrying.
    RateLimit { retry_after: Option<u64> },
    /// An HTTP request failed.
    Http(HttpFailure),
    /// A response could not be parsed.
    Parse(String),
    /// A file could not be read or written.
    Io(String),
    /// The sync database reported an error.
    Db(String),
    /// The configuration is invalid.
    Config(String),
    /// Any other failure.
    Other(String),
}

} // verus!
