//! What the transport reports to its caller.

use vstd::prelude::*;

verus! {

/// `url::ParseError`, the reason why a text is no URL. Opaque here: it is
/// handed on to the caller and never looked into.
#[verifier::external_type_specification]
#[verifier::external_body]
pub struct ExUrlParseError(url::ParseError);

/// `serde_json::Error`, the reason why a text is no response. Opaque here:
/// it is handed on to the caller and never looked into.
#[verifier::external_type_specification]
#[verifier::external_body]
pub struct ExJsonError(serde_json::Error);

/// The failures and signals of the transport.
#[derive(Debug)]
pub enum TransportError {
    /// Construction failed: the endpoint is not a URL, so no connection was
    /// attempted.
    Connection(url::ParseError),
    /// A received frame holds bytes that are not UTF-8 text.
    Utf8,
    /// The text of a received frame is not a well-formed response.
    Decode(serde_json::Error),
    /// Nothing has arrived yet. Not a failure: the caller polls again.
    Retry,
}

impl TransportError {
    /// Whether this is the signal to poll again rather than a failure.
    pub fn is_retry(&self) -> (r: bool)
        ensures
            r == (self is Retry),
    {
        match self {
            TransportError::Retry => true,
            _ => false,
        }
    }
}

} // verus!
