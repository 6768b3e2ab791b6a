//! The one error type every fallible call of this layer returns.

use vstd::prelude::*;

verus! {

/// Why a call failed: the transport could not complete, the server answered
/// with a status outside the accepted set, or the body did not decode.
///
/// A rejected status keeps the raw status and body for diagnostics, so a
/// caller can tell "server said no" apart from "server said yes but the
/// shape changed".
#[derive(Debug)]
pub enum ClientError {
    /// The underlying call could not complete (connect/TLS/timeout/write).
    Transport(String),
    /// The response status was not in the accepted-status set; carries the
    /// status code and the raw body.
    Status(u16, Vec<u8>),
    /// The status was accepted but the body did not match the expected JSON
    /// shape; carries the decoder's message.
    Decode(String),
}

impl ClientError {
    /// The status code, for a rejected-status error.
    pub fn status_code(&self) -> (r: Option<u16>)
        ensures
            match self {
                ClientError::Status(st, _) => r == Some(*st),
                _ => r is None,
            },
    {
        match self {
            ClientError::Status(st, _) => Some(*st),
            _ => None,
        }
    }
}

} // verus!
