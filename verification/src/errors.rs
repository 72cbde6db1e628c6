//! The error type the streaming layer reports to its callers.

use vstd::prelude::*;

verus! {

/// A failure of the streaming layer.
pub enum StreamError {
    /// A caller-supplied input was rejected synchronously; never retried.
    InvalidInput(String),
    /// A connection ultimately failed, after any local retries.
    WebSocketError(String),
}

impl StreamError {
    /// The text carried by the error.
    pub fn message(&self) -> (r: &str)
        ensures
            match self {
                StreamError::InvalidInput(m) => r@ == m@,
                StreamError::WebSocketError(m) => r@ == m@,
            },
    {
        match self {
            StreamError::InvalidInput(m) => m.as_str(),
            StreamError::WebSocketError(m) => m.as_str(),
        }
    }
}

} // verus!
