//! The transport itself: what the caller, the writer loop and the reader
//! loop each do to it.

use crate::endpoint::{parse_url, parsed_url};
use crate::error::TransportError;
use crate::frame::Frame;
use crate::model::{Bridge, ConnectionState, Info, ReadError, ReaderAction, WriterAction, POLL_MILLIS};
use crate::response::decode_frame;
use std::collections::VecDeque;
use vstd::prelude::*;
use vstd::string::StringExecFns;

verus! {

/// One connection to a server: the queue of what is to be written, the queue
/// of what was read, and the state of the two loops that serve the socket.
pub struct WsTransportClient {
    endpoint: url::Url,
    outbound: VecDeque<Info>,
    inbound: VecDeque<Frame>,
    established: bool,
    closing: bool,
    writer_running: bool,
    reader_running: bool,
}

impl View for WsTransportClient {
    type V = Bridge;

    closed spec fn view(&self) -> Bridge {
        Bridge {
            endpoint: self.endpoint,
            outbound: self.outbound@,
            inbound: self.inbound@,
            established: self.established,
            closing: self.closing,
            writer_running: self.writer_running,
            reader_running: self.reader_running,
        }
    }
}

impl WsTransportClient {
    /// Makes the transport for an endpoint that is known to be a URL.
    pub fn with_endpoint(endpoint: url::Url) -> (r: WsTransportClient)
        ensures
            r@ == Bridge::fresh(endpoint),
    {
        WsTransportClient {
            endpoint,
            outbound: VecDeque::new(),
            inbound: VecDeque::new(),
            established: false,
            closing: false,
            writer_running: true,
            reader_running: true,
        }
    }

    /// Makes the transport from what parsing the address gave: for a URL the
    /// transport for that endpoint, else a connection error that holds the
    /// parser's reason.
    pub fn from_parsed(parsed: Result<url::Url, url::ParseError>) -> (r: Result<
        WsTransportClient,
        TransportError,
    >)
        ensures
            match parsed {
                Ok(endpoint) => r matches Ok(client) && client@ == Bridge::fresh(endpoint),
                Err(reason) => r matches Err(error) && error == TransportError::Connection(reason),
            },
    {
        match parsed {
            Ok(endpoint) => Ok(WsTransportClient::with_endpoint(endpoint)),
            Err(reason) => Err(TransportError::Connection(reason)),
        }
    }

    /// Makes the transport for the server at `url`. Fails with a connection
    /// error exactly where `url` is not a URL.
    pub fn new(url: &str) -> (r: Result<WsTransportClient, TransportError>)
        ensures
            match parsed_url(url@) {
                Ok(endpoint) => r matches Ok(client) && client@ == Bridge::fresh(endpoint),
                Err(reason) => r matches Err(error) && error == TransportError::Connection(reason),
            },
    {
        WsTransportClient::from_parsed(parse_url(url))
    }

    /// The address to connect to.
    pub fn endpoint(&self) -> (r: &url::Url)
        ensures
            *r == self@.endpoint,
    {
        &self.endpoint
    }

    /// Records that the handshake with the server has completed.
    pub fn established(&mut self)
        ensures
            final(self)@ == old(self)@.establish(),
    {
        self.established = true;
    }

    /// Queues a request for the writer loop. Never fails, and waits for
    /// nothing: neither for the write nor for a response.
    pub fn send_request(&mut self, payload: String) -> (r: Result<(), TransportError>)
        ensures
            r is Ok,
            final(self)@ == old(self)@.submit(payload),
    {
        self.outbound.push_back(Info::Request(payload));
        Ok(())
    }

    /// Takes the oldest frame that has arrived and decodes it. Where none has
    /// arrived, returns the retry signal and changes nothing.
    pub fn next_response(&mut self) -> (r: Result<jsonrpsee::common::Response, TransportError>)
        ensures
            r == old(self)@.poll_result(),
            final(self)@ == old(self)@.poll(),
            old(self)@.inbound.len() == 0 ==> r == Err::<
                jsonrpsee::common::Response,
                TransportError,
            >(TransportError::Retry) && final(self)@ == old(self)@,
    {
        match self.inbound.pop_front() {
            Some(frame) => decode_frame(frame),
            None => Err(TransportError::Retry),
        }
    }

    /// Asks for shutdown: queues the close signal behind what is already
    /// queued.
    pub fn close(&mut self)
        ensures
            final(self)@ == old(self)@.shutdown(),
    {
        self.outbound.push_back(Info::Close);
        self.closing = true;
    }

    /// One turn of the writer loop: takes the oldest queued item and says
    /// what to do with it.
    pub fn writer_step(&mut self) -> (action: WriterAction)
        ensures
            action == old(self)@.writer_action(),
            final(self)@ == old(self)@.writer_turn(),
    {
        if !self.writer_running {
            return WriterAction::Stop;
        }
        match self.outbound.pop_front() {
            Some(Info::Request(payload)) => WriterAction::Write(payload),
            Some(Info::Close) => {
                self.writer_running = false;
                WriterAction::Stop
            },
            None => WriterAction::Sleep(POLL_MILLIS),
        }
    }

    /// One turn of the reader loop: takes what a read from the socket ended
    /// in and says whether to read again.
    pub fn reader_step(&mut self, outcome: Result<Frame, ReadError>) -> (action: ReaderAction)
        ensures
            action == old(self)@.reader_action(outcome),
            final(self)@ == old(self)@.reader_turn(outcome),
    {
        if !self.reader_running {
            return ReaderAction::Stop;
        }
        match outcome {
            Ok(frame) => {
                self.inbound.push_back(frame);
                ReaderAction::Continue
            },
            Err(error) => {
                if error.terminal() {
                    self.reader_running = false;
                    ReaderAction::Stop
                } else {
                    ReaderAction::Continue
                }
            },
        }
    }

    /// Where the connection stands.
    pub fn state(&self) -> (r: ConnectionState)
        ensures
            r == self@.phase(),
    {
        if !self.writer_running && !self.reader_running {
            ConnectionState::Closed
        } else if self.closing {
            ConnectionState::Closing
        } else if self.established {
            ConnectionState::Open
        } else {
            ConnectionState::Connecting
        }
    }
}

/// What to say when no transport could be made for `url`.
pub fn connect_failure(url: &str) -> (r: String)
    ensures
        r@ == "Failed to connect to `"@ + url@ + "`"@,
{
    let mut text = String::from_str("Failed to connect to `");
    text.append(url);
    text.append("`");
    text
}

} // verus!
