//! The transport as a value: the two queues, the state of the two loops, and
//! what each operation makes of them.

use crate::error::TransportError;
use crate::frame::Frame;
use crate::response::decode_outcome;
use vstd::prelude::*;

verus! {

/// How long, in milliseconds, to wait before asking again: the writer loop
/// when nothing is queued, and the caller when a poll gave the retry signal.
pub const POLL_MILLIS: u64 = 5;

/// An item of the outbound queue.
#[derive(Debug, PartialEq, Eq)]
pub enum Info {
    /// A request, already serialised, to be written as one text frame.
    Request(String),
    /// The signal that stops the writer loop.
    Close,
}

/// Why a read from the socket gave no frame.
#[derive(Debug, Clone, Copy, PartialEq, Eq)]
pub enum ReadError {
    /// The connection was closed in good order.
    ConnectionClosed,
    /// The connection had been closed before the read.
    AlreadyClosed,
    /// The stream below failed, or has nothing to give yet.
    Io,
    /// The encryption layer failed.
    Tls,
    /// A buffer or a message is over its limit.
    Capacity,
    /// The peer broke the protocol.
    Protocol,
    /// The send queue is full.
    SendQueueFull,
    /// A text frame holds bytes that are not UTF-8.
    Utf8,
    /// The address is not usable.
    Url,
    /// The server answered the handshake with a failure.
    Http,
    /// The handshake was malformed.
    HttpFormat,
}

impl ReadError {
    /// Whether the failure means that the connection is gone, so that no
    /// further frame can arrive.
    pub open spec fn is_terminal(self) -> bool {
        self is ConnectionClosed || self is AlreadyClosed
    }

    /// Tells whether the connection is gone.
    pub fn terminal(&self) -> (r: bool)
        ensures
            r == self.is_terminal(),
    {
        match self {
            ReadError::ConnectionClosed => true,
            ReadError::AlreadyClosed => true,
            _ => false,
        }
    }
}

/// What the writer loop does next.
#[derive(Debug, PartialEq, Eq)]
pub enum WriterAction {
    /// Write this body to the socket as one text frame, then ask again.
    Write(String),
    /// Nothing is queued: wait this many milliseconds, then ask again.
    Sleep(u64),
    /// Leave the loop.
    Stop,
}

/// What the reader loop does next.
#[derive(Debug, Clone, Copy, PartialEq, Eq)]
pub enum ReaderAction {
    /// Read from the socket again.
    Continue,
    /// Leave the loop.
    Stop,
}

/// Where a connection stands in its life.
#[derive(Debug, Clone, Copy, PartialEq, Eq)]
pub enum ConnectionState {
    /// The handshake has not been reported yet.
    Connecting,
    /// Established, and no shutdown was asked for.
    Open,
    /// A close signal was queued; a loop is still running.
    Closing,
    /// Both loops have left.
    Closed,
}

impl ConnectionState {
    /// The place of a state in the order in which a connection passes
    /// through them.
    pub open spec fn rank(self) -> nat {
        match self {
            ConnectionState::Connecting => 0,
            ConnectionState::Open => 1,
            ConnectionState::Closing => 2,
            ConnectionState::Closed => 3,
        }
    }
}

/// The transport seen as a mathematical value.
pub struct Bridge {
    /// The address of the server.
    pub endpoint: url::Url,
    /// What the caller queued and the writer has not taken yet, oldest first.
    pub outbound: Seq<Info>,
    /// What the reader queued and the caller has not taken yet, oldest first.
    pub inbound: Seq<Frame>,
    /// Whether the handshake was reported.
    pub established: bool,
    /// Whether a close signal was queued.
    pub closing: bool,
    /// Whether the writer loop has not left yet.
    pub writer_running: bool,
    /// Whether the reader loop has not left yet.
    pub reader_running: bool,
}

impl Bridge {
    /// A transport that was just made for `endpoint`: nothing queued, the
    /// handshake still to come, both loops about to run.
    pub open spec fn fresh(endpoint: url::Url) -> Bridge {
        Bridge {
            endpoint,
            outbound: Seq::empty(),
            inbound: Seq::empty(),
            established: false,
            closing: false,
            writer_running: true,
            reader_running: true,
        }
    }

    /// What holds of every transport: a close signal is queued, and the
    /// writer loop has left, only after shutdown was asked for.
    pub open spec fn wf(self) -> bool {
        self.closing || (self.writer_running && forall|i: int|
            0 <= i < self.outbound.len() ==> self.outbound[i] is Request)
    }

    /// After the handshake was reported.
    pub open spec fn establish(self) -> Bridge {
        Bridge { established: true, ..self }
    }

    /// After the caller queued a request.
    pub open spec fn submit(self, payload: String) -> Bridge {
        Bridge { outbound: self.outbound.push(Info::Request(payload)), ..self }
    }

    /// After the caller asked for shutdown.
    pub open spec fn shutdown(self) -> Bridge {
        Bridge { outbound: self.outbound.push(Info::Close), closing: true, ..self }
    }

    /// What the writer loop does at its next turn.
    pub open spec fn writer_action(self) -> WriterAction {
        if !self.writer_running {
            WriterAction::Stop
        } else if self.outbound.len() == 0 {
            WriterAction::Sleep(POLL_MILLIS)
        } else {
            match self.outbound[0] {
                Info::Request(payload) => WriterAction::Write(payload),
                Info::Close => WriterAction::Stop,
            }
        }
    }

    /// After one turn of the writer loop: it took the oldest item, if there
    /// was one, and left for good if that item was the close signal.
    pub open spec fn writer_turn(self) -> Bridge {
        if !self.writer_running || self.outbound.len() == 0 {
            self
        } else {
            Bridge {
                outbound: self.outbound.skip(1),
                writer_running: !(self.outbound[0] is Close),
                ..self
            }
        }
    }

    /// What the reader loop does after a read that ended in `outcome`.
    pub open spec fn reader_action(self, outcome: Result<Frame, ReadError>) -> ReaderAction {
        if !self.reader_running {
            ReaderAction::Stop
        } else {
            match outcome {
                Ok(_) => ReaderAction::Continue,
                Err(error) => if error.is_terminal() {
                    ReaderAction::Stop
                } else {
                    ReaderAction::Continue
                },
            }
        }
    }

    /// After the reader loop has dealt with `outcome`: a frame is queued as
    /// it came, a closed connection ends the loop, any other failure is
    /// dropped.
    pub open spec fn reader_turn(self, outcome: Result<Frame, ReadError>) -> Bridge {
        if !self.reader_running {
            self
        } else {
            match outcome {
                Ok(frame) => Bridge { inbound: self.inbound.push(frame), ..self },
                Err(error) => Bridge { reader_running: !error.is_terminal(), ..self },
            }
        }
    }

    /// What a poll returns: the retry signal while nothing has arrived, else
    /// the oldest frame, decoded.
    pub open spec fn poll_result(self) -> Result<jsonrpsee::common::Response, TransportError> {
        if self.inbound.len() == 0 {
            Err(TransportError::Retry)
        } else {
            decode_outcome(self.inbound[0])
        }
    }

    /// After a poll: the oldest frame, if there was one, is gone.
    pub open spec fn poll(self) -> Bridge {
        if self.inbound.len() == 0 {
            self
        } else {
            Bridge { inbound: self.inbound.skip(1), ..self }
        }
    }

    /// Where the connection stands.
    pub open spec fn phase(self) -> ConnectionState {
        if !self.writer_running && !self.reader_running {
            ConnectionState::Closed
        } else if self.closing {
            ConnectionState::Closing
        } else if self.established {
            ConnectionState::Open
        } else {
            ConnectionState::Connecting
        }
    }
}

} // verus!
