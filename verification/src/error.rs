//! The single error taxonomy surfaced to callers.
//!
//! Every failure arising from request construction, the bounded exchange, and
//! response validation or decoding is mapped into exactly one variant of
//! [`Error`] before it crosses the public boundary; no transport- or
//! decoder-specific error type is ever exposed.

use vstd::prelude::*;

verus! {

/// The closed set of failures reported by every operation of this client.
#[derive(Debug)]
pub enum Error {
    /// The credential is absent or unusable; raised before any request is
    /// attempted.
    NoAuth,
    /// The underlying connection failed (DNS, TLS, broken pipe, ...); the
    /// payload preserves the transport's diagnostic message.
    Transport(String),
    /// The deadline elapsed before the response arrived.
    Timeout,
    /// The response status did not match the expected value.
    UnexpectedStatus { expected: u16, received: u16 },
    /// The response body could not be parsed into the expected structure; the
    /// payload preserves the decoder's diagnostic message.
    Decode(String),
    /// A failure not otherwise classified; the payload preserves the original
    /// cause.
    Unknown(String),
}

impl Error {
    /// A short label naming the variant, for logging by unverified callers.
    pub fn kind_name(&self) -> (r: &'static str)
        ensures
            r@ == match self {
                Error::NoAuth => "NoAuth"@,
                Error::Transport(_) => "Transport"@,
                Error::Timeout => "Timeout"@,
                Error::UnexpectedStatus { .. } => "UnexpectedStatus"@,
                Error::Decode(_) => "Decode"@,
                Error::Unknown(_) => "Unknown"@,
            },
    {
        match self {
            Error::NoAuth => "NoAuth",
            Error::Transport(_) => "Transport",
            Error::Timeout => "Timeout",
            Error::UnexpectedStatus { .. } => "UnexpectedStatus",
            Error::Decode(_) => "Decode",
            Error::Unknown(_) => "Unknown",
        }
    }
}

} // verus!
