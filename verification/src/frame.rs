//! The frames that travel from the socket to the caller.

use crate::error::TransportError;
use vstd::prelude::*;
use vstd::utf8::{decode_utf8, valid_utf8};

verus! {

/// `tungstenite::Error`, as `Message::into_text` returns it. Opaque here:
/// only whether there is one is looked at.
#[verifier::external_type_specification]
#[verifier::external_body]
pub struct ExSocketError(tungstenite::Error);

/// What a peer says when it closes: a status code and a reason.
#[derive(Debug, PartialEq, Eq)]
pub struct CloseFrame {
    /// The status code.
    pub code: u16,
    /// The reason, as text.
    pub reason: String,
}

/// One frame as it came off the socket.
#[derive(Debug, PartialEq, Eq)]
pub enum Frame {
    /// A text frame and its body.
    Text(String),
    /// A binary frame and its bytes.
    Binary(Vec<u8>),
    /// A ping and its payload.
    Ping(Vec<u8>),
    /// A pong and its payload.
    Pong(Vec<u8>),
    /// A close frame, with what the peer said of its reasons, if anything.
    Close(Option<CloseFrame>),
}

impl Frame {
    /// The text that a frame stands for, where it stands for any: the body of
    /// a text frame, the bytes of a binary, ping or pong frame read as UTF-8,
    /// the reason of a close frame, and the empty text for a close frame that
    /// gives none.
    pub open spec fn text(self) -> Option<Seq<char>> {
        match self {
            Frame::Text(body) => Some(body@),
            Frame::Binary(data) | Frame::Ping(data) | Frame::Pong(data) => if valid_utf8(data@) {
                Some(decode_utf8(data@))
            } else {
                None
            },
            Frame::Close(None) => Some(Seq::empty()),
            Frame::Close(Some(close)) => Some(close.reason@),
        }
    }

    /// Reads the frame as text. Fails with `Utf8` exactly on a binary, ping
    /// or pong frame whose bytes are not UTF-8.
    pub fn into_text(self) -> (r: Result<String, TransportError>)
        ensures
            match self.text() {
                Some(text) => r matches Ok(body) && body@ == text,
                None => r == Err::<String, TransportError>(TransportError::Utf8),
            },
    {
        match message_into_text(self) {
            Ok(body) => Ok(body),
            Err(_) => Err(TransportError::Utf8),
        }
    }
}

/// Calls `tungstenite::Message::into_text` on the message that `frame`
/// stands for. Trusted: the call succeeds exactly on the frames that have a
/// text, and then returns that text.
#[verifier::external_body]
fn message_into_text(frame: Frame) -> (r: Result<String, tungstenite::Error>)
    ensures
        r is Ok <==> frame.text() is Some,
        r matches Ok(text) ==> frame.text() == Some(text@),
{
    let message = match frame {
        Frame::Text(body) => tungstenite::Message::Text(body),
        Frame::Binary(data) => tungstenite::Message::Binary(data),
        Frame::Ping(data) => tungstenite::Message::Ping(data),
        Frame::Pong(data) => tungstenite::Message::Pong(data),
        Frame::Close(None) => tungstenite::Message::Close(None),
        Frame::Close(Some(close)) => tungstenite::Message::Close(Some(
            tungstenite::protocol::CloseFrame { code: close.code.into(), reason: close.reason.into() },
        )),
    };
    message.into_text()
}

} // verus!
