//! The library's error type.
use vstd::prelude::*;

verus! {

/// What can go wrong while loading configuration or starting up.
#[derive(Debug)]
pub enum Error {
    /// The configuration source could not be read.
    Io(String),
    /// The configuration source could not be parsed.
    Config(String),
    /// A setting needed at startup is absent; holds the setting's name.
    MissingKey(String),
    /// A deploy entry names no action or both; holds the entry's key.
    InvalidEntry(String),
}

/// HTTP status for an internal fault.
pub const INTERNAL_SERVER_ERROR: u16 = 500;

impl Error {
    /// The HTTP status with which this error answers a request: every
    /// variant is an internal fault.
    pub fn status_code(&self) -> (r: u16)
        ensures
            r == INTERNAL_SERVER_ERROR,
    {
        match self {
            Error::Io(_) => INTERNAL_SERVER_ERROR,
            Error::Config(_) => INTERNAL_SERVER_ERROR,
            Error::MissingKey(_) => INTERNAL_SERVER_ERROR,
            Error::InvalidEntry(_) => INTERNAL_SERVER_ERROR,
        }
    }
}

} // verus!
