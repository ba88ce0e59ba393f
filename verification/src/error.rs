//! The closed error taxonomy of the exchange layer.
//!
//! Every adapter-level failure is mapped into exactly one of these kinds;
//! no raw transport or decoding error crosses the adapter boundary
//! unconverted.

use vstd::prelude::*;

verus! {

/// A failure of an exchange adapter, normalized into a closed set of kinds.
///
/// Each variant carries a human-readable reason.
#[derive(Debug)]
pub enum ExchangeError {
    /// The exchange told us to slow down.
    RateLimited(String),
    /// The exchange is temporarily unable to serve requests.
    Unavailable(String),
    /// The configured API key was rejected or could not be used to sign.
    KeyError(String),
    /// The reply decoded, but not into the shape the caller expected.
    UnexpectedResponseType(String),
    /// The transport below the adapter (connection, dispatch queue) failed.
    Transport(String),
    /// Catch-all for adapter-internal failures not otherwise classified.
    Other(String),
}

impl ExchangeError {
    /// The human-readable reason carried by this error.
    pub fn reason(&self) -> (r: &str)
        ensures
            r@ == self.reason_spec(),
    {
        match self {
            ExchangeError::RateLimited(m) => m.as_str(),
            ExchangeError::Unavailable(m) => m.as_str(),
            ExchangeError::KeyError(m) => m.as_str(),
            ExchangeError::UnexpectedResponseType(m) => m.as_str(),
            ExchangeError::Transport(m) => m.as_str(),
            ExchangeError::Other(m) => m.as_str(),
        }
    }

    /// The reason string of this error, as a sequence of characters.
    pub open spec fn reason_spec(&self) -> Seq<char> {
        match self {
            ExchangeError::RateLimited(m) => m@,
            ExchangeError::Unavailable(m) => m@,
            ExchangeError::KeyError(m) => m@,
            ExchangeError::UnexpectedResponseType(m) => m@,
            ExchangeError::Transport(m) => m@,
            ExchangeError::Other(m) => m@,
        }
    }
}

} // verus!
