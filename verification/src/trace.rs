//! Runs of the transport: what a sequence of steps, taken in any order by
//! the caller and the two loops, leaves on the wire and hands to the caller.

use crate::error::TransportError;
use crate::frame::Frame;
use crate::model::{Bridge, Info, ReadError, WriterAction};
use vstd::prelude::*;

verus! {

/// One thing that happens to the transport.
pub enum Step {
    /// The handshake is reported.
    Establish,
    /// The caller queues a request.
    Submit(String),
    /// The caller asks for shutdown.
    Shutdown,
    /// The writer loop takes a turn.
    WriterTurn,
    /// The reader loop deals with what a read ended in.
    ReaderTurn(Result<Frame, ReadError>),
    /// The caller polls for a response.
    Poll,
}

/// The bodies that a writer which starts on `queue` will write: those of the
/// requests in front of the first close signal, oldest first.
pub open spec fn drain(queue: Seq<Info>) -> Seq<String>
    decreases queue.len(),
{
    if queue.len() == 0 {
        Seq::empty()
    } else {
        match queue[0] {
            Info::Request(payload) => seq![payload] + drain(queue.skip(1)),
            Info::Close => Seq::empty(),
        }
    }
}

/// The items that the caller queues in the course of `steps`, oldest first.
pub open spec fn queued(steps: Seq<Step>) -> Seq<Info>
    decreases steps.len(),
{
    if steps.len() == 0 {
        Seq::empty()
    } else {
        match steps[0] {
            Step::Submit(payload) => seq![Info::Request(payload)] + queued(steps.skip(1)),
            Step::Shutdown => seq![Info::Close] + queued(steps.skip(1)),
            _ => queued(steps.skip(1)),
        }
    }
}

/// `payloads`, each submitted in turn.
pub open spec fn submissions(payloads: Seq<String>) -> Seq<Step> {
    Seq::new(payloads.len(), |i: int| Step::Submit(payloads[i]))
}

/// `count` turns of the writer loop.
pub open spec fn writer_turns(count: nat) -> Seq<Step> {
    Seq::new(count, |i: int| Step::WriterTurn)
}

impl Bridge {
    /// The transport after `step`.
    pub open spec fn step(self, step: Step) -> Bridge {
        match step {
            Step::Establish => self.establish(),
            Step::Submit(payload) => self.submit(payload),
            Step::Shutdown => self.shutdown(),
            Step::WriterTurn => self.writer_turn(),
            Step::ReaderTurn(outcome) => self.reader_turn(outcome),
            Step::Poll => self.poll(),
        }
    }

    /// What `step` puts on the wire: one body where the writer loop is told
    /// to write, else nothing.
    pub open spec fn written(self, step: Step) -> Seq<String> {
        match step {
            Step::WriterTurn => match self.writer_action() {
                WriterAction::Write(payload) => seq![payload],
                _ => Seq::empty(),
            },
            _ => Seq::empty(),
        }
    }

    /// What `step` adds to the inbound queue: the frame that a running
    /// reader loop has read, else nothing.
    pub open spec fn accepted(self, step: Step) -> Seq<Frame> {
        match step {
            Step::ReaderTurn(Ok(frame)) => if self.reader_running {
                seq![frame]
            } else {
                Seq::empty()
            },
            _ => Seq::empty(),
        }
    }

    /// What `step` takes from the inbound queue: the oldest frame where the
    /// caller polls and one is there, else nothing.
    pub open spec fn taken(self, step: Step) -> Seq<Frame> {
        match step {
            Step::Poll => if self.inbound.len() == 0 {
                Seq::empty()
            } else {
                seq![self.inbound[0]]
            },
            _ => Seq::empty(),
        }
    }

    /// What `step` returns to the caller: the result of a poll, else nothing.
    pub open spec fn answered(self, step: Step) -> Seq<
        Result<jsonrpsee::common::Response, TransportError>,
    > {
        match step {
            Step::Poll => seq![self.poll_result()],
            _ => Seq::empty(),
        }
    }

    /// The transport after `steps`, taken in order.
    pub open spec fn run(self, steps: Seq<Step>) -> Bridge
        decreases steps.len(),
    {
        if steps.len() == 0 {
            self
        } else {
            self.step(steps[0]).run(steps.skip(1))
        }
    }

    /// The bodies written to the socket in the course of `steps`, in the
    /// order in which they were written.
    pub open spec fn wire(self, steps: Seq<Step>) -> Seq<String>
        decreases steps.len(),
    {
        if steps.len() == 0 {
            Seq::empty()
        } else {
            self.written(steps[0]) + self.step(steps[0]).wire(steps.skip(1))
        }
    }

    /// The frames that the reader loop queues in the course of `steps`, in
    /// the order in which they were read.
    pub open spec fn received(self, steps: Seq<Step>) -> Seq<Frame>
        decreases steps.len(),
    {
        if steps.len() == 0 {
            Seq::empty()
        } else {
            self.accepted(steps[0]) + self.step(steps[0]).received(steps.skip(1))
        }
    }

    /// The frames that the caller's polls take in the course of `steps`, in
    /// the order in which they were taken.
    pub open spec fn delivered(self, steps: Seq<Step>) -> Seq<Frame>
        decreases steps.len(),
    {
        if steps.len() == 0 {
            Seq::empty()
        } else {
            self.taken(steps[0]) + self.step(steps[0]).delivered(steps.skip(1))
        }
    }

    /// The results of the caller's polls in the course of `steps`, in order.
    pub open spec fn polled(self, steps: Seq<Step>) -> Seq<
        Result<jsonrpsee::common::Response, TransportError>,
    >
        decreases steps.len(),
    {
        if steps.len() == 0 {
            Seq::empty()
        } else {
            self.answered(steps[0]) + self.step(steps[0]).polled(steps.skip(1))
        }
    }

    /// The bodies that the writer loop has still to write if nothing more is
    /// queued.
    pub open spec fn pending(self) -> Seq<String> {
        if self.writer_running {
            drain(self.outbound)
        } else {
            Seq::empty()
        }
    }
}

} // verus!
