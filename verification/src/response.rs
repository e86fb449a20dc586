//! From a received frame to the response it carries.

use crate::error::TransportError;
use crate::frame::Frame;
use vstd::prelude::*;

verus! {

/// `jsonrpsee::common::Response`, a decoded response. Opaque here: it is
/// handed on to the caller and never looked into.
#[verifier::external_type_specification]
#[verifier::external_body]
pub struct ExResponse(jsonrpsee::common::Response);

/// What `jsonrpsee::common::Response::from_json` makes of a text: the
/// response that the text spells, or the reason why it spells none.
pub uninterp spec fn parsed_response(text: Seq<char>) -> Result<
    jsonrpsee::common::Response,
    serde_json::Error,
>;

/// Calls `jsonrpsee::common::Response::from_json`. Trusted: the result
/// depends on the text alone, and is what `parsed_response` names.
#[verifier::external_body]
pub(crate) fn parse_response(text: &str) -> (r: Result<
    jsonrpsee::common::Response,
    serde_json::Error,
>)
    ensures
        r == parsed_response(text@),
{
    jsonrpsee::common::Response::from_json(text)
}

/// What the caller gets for a parsed text: the response itself, or a decode
/// error that holds the parser's reason.
pub open spec fn response_outcome(
    parsed: Result<jsonrpsee::common::Response, serde_json::Error>,
) -> Result<jsonrpsee::common::Response, TransportError> {
    match parsed {
        Ok(response) => Ok(response),
        Err(reason) => Err(TransportError::Decode(reason)),
    }
}

/// What the caller gets for a frame: a UTF-8 error where the frame has no
/// text, else the outcome of parsing its text.
pub open spec fn decode_outcome(frame: Frame) -> Result<
    jsonrpsee::common::Response,
    TransportError,
> {
    match frame.text() {
        Some(text) => response_outcome(parsed_response(text)),
        None => Err(TransportError::Utf8),
    }
}

/// Turns the parser's verdict on a text into the transport's own result.
pub fn decoded(parsed: Result<jsonrpsee::common::Response, serde_json::Error>) -> (r: Result<
    jsonrpsee::common::Response,
    TransportError,
>)
    ensures
        r == response_outcome(parsed),
{
    match parsed {
        Ok(response) => Ok(response),
        Err(reason) => Err(TransportError::Decode(reason)),
    }
}

/// Decodes the body of a text frame as a response.
pub fn decode_text(text: &str) -> (r: Result<jsonrpsee::common::Response, TransportError>)
    ensures
        r == response_outcome(parsed_response(text@)),
{
    decoded(parse_response(text))
}

/// Decodes a received frame: reads it as text, then the text as a response.
pub fn decode_frame(frame: Frame) -> (r: Result<jsonrpsee::common::Response, TransportError>)
    ensures
        r == decode_outcome(frame),
{
    match frame.into_text() {
        Ok(text) => decode_text(text.as_str()),
        Err(error) => Err(error),
    }
}

} // verus!
