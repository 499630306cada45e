//! The service's error kinds, each carrying the message shown to the client.

use vstd::prelude::*;

verus! {

/// An error answered to an API request.
#[derive(Debug, Clone, PartialEq, Eq)]
pub enum AppError {
    /// The requested image or device does not exist (HTTP 404).
    NotFound(String),
    /// The request itself is malformed or unsupported (HTTP 400).
    BadRequest(String),
    /// A RAW file or image could not be decoded or encoded.
    Processing(String),
    /// A failure of the service or of a peer it depends on (HTTP 500).
    Internal(String),
}

} // verus!
