use vstd::prelude::*;

verus! {

/// Why a call failed.
#[derive(Debug, PartialEq, Eq)]
pub enum CoreError {
    /// `send` was given a method other than `POST` or `PUT`; nothing was sent.
    UnsupportedMethod,
    /// The request body could not be encoded as JSON; serde_json never
    /// fails so on a `Value`, so `send` does not return it.
    Encode,
    /// The transport failed (connection error, timeout) and no retry was left.
    Transport(String),
    /// A server error status (5xx) with no retry left.
    Server(u16),
    /// A status that is neither success nor server error (such as 4xx).
    Client(u16),
    /// The response body is not valid JSON.
    Decode,
}

} // verus!
