//! The SDK's error type.

use vstd::prelude::*;

verus! {

/// Errors the SDK reports.
#[derive(Debug)]
pub enum TigerError {
    /// A business error from the API (a response whose code is not 0).
    Api { code: i32, message: String },
    /// A transport failure, with its description.
    Network(String),
    /// Authentication failure (bad private key, signing failed).
    Auth(String),
    /// Configuration problem (missing field, unreadable file, bad format).
    Config(String),
    /// A response body or value that does not decode.
    Parse(String),
}

} // verus!
