//! The two failure kinds of the client, plus the explicit marker for the
//! not-yet-supported pagination follow.

use vstd::prelude::*;

verus! {

/// A failed API call.
///
/// Every operation either succeeds or aborts with one of these; there is no
/// local recovery or partial result.
#[derive(Debug)]
pub enum Error {
    /// Network failure, non-2xx status, or any other fault of the HTTP
    /// transport, with the transport's own message. Decoding never produces
    /// this variant; the caller that performed the HTTP GET does.
    Transport(String),
    /// The response body does not have the JSON shape the requested type
    /// needs: not JSON at all, a missing required field, a type mismatch, or
    /// an unexpected envelope structure. The payload describes what failed.
    Deserialization(String),
    /// The operation is not supported yet (following a pagination cursor from
    /// within the library).
    Unsupported,
}

impl Error {
    /// A short label for the failure kind, for logging by callers.
    pub fn kind(&self) -> (r: String)
        ensures
            r@ == match self {
                Error::Transport(_) => "transport"@,
                Error::Deserialization(_) => "deserialization"@,
                Error::Unsupported => "unsupported"@,
            },
    {
        match self {
            Error::Transport(_) => String::from_str("transport"),
            Error::Deserialization(_) => String::from_str("deserialization"),
            Error::Unsupported => String::from_str("unsupported"),
        }
    }
}

} // verus!
