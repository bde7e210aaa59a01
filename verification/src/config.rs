//! The validated startup configuration.
//!
//! A configuration names the HTTP listen port, the cron expression that paces
//! polling, and the four credential strings for the remote statistics API. A
//! configuration that cannot be read or whose cron expression does not parse is
//! a fatal startup error: the process reports the detail and exits instead of
//! starting with a schedule it cannot honour.

use vstd::prelude::*;

verus! {

/// The four credential strings that authenticate to the remote statistics API.
#[derive(Clone)]
pub struct Token {
    pub consumer_key: String,
    pub consumer_secret: String,
    pub access_token: String,
    pub access_secret: String,
}

/// The startup configuration: listen port, cron expression, credentials.
#[derive(Clone)]
pub struct Config {
    pub port: u16,
    pub cron: String,
    pub token: Token,
}

/// A fatal startup fault. It surfaces at the process boundary with its
/// diagnostic detail; nothing of this kind is recovered at runtime.
#[derive(Debug)]
pub enum ConfigError {
    /// The cron expression was rejected; the detail is the parser's message.
    InvalidCron { detail: String },
}

impl ConfigError {
    /// The diagnostic text of this fault.
    pub open spec fn spec_detail(&self) -> Seq<char> {
        match self {
            ConfigError::InvalidCron { detail } => detail@,
        }
    }

    /// Reads the diagnostic text, to be reported before the process exits.
    pub fn detail(&self) -> (r: &String)
        ensures
            r@ == self.spec_detail(),
    {
        match self {
            ConfigError::InvalidCron { detail } => detail,
        }
    }
}

} // verus!
