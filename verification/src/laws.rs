//! What holds of every run of the transport.

use crate::error::TransportError;
use crate::model::{Bridge, Info, ReadError, ReaderAction};
use crate::trace::{drain, queued, submissions, writer_turns, Step};
use vstd::prelude::*;

verus! {

/// Nothing is lost, doubled or reordered between the caller and the wire.
/// Whatever the order in which the caller and the loops take their steps,
/// what has been written, followed by what the writer has still to write, is
/// the bodies of the requests that were queued in front of the first close
/// signal, in the order in which they were queued.
pub proof fn lemma_outbound_order(s: Bridge, steps: Seq<Step>)
    requires
        s.writer_running,
    ensures
        s.wire(steps) + s.run(steps).pending() == drain(s.outbound + queued(steps)),
    decreases steps.len(),
{
    if steps.len() == 0 {
        assert(s.outbound + queued(steps) =~= s.outbound);
    } else {
        let next = s.step(steps[0]);
        let rest = steps.skip(1);
        let later = queued(rest);
        if next.writer_running {
            lemma_outbound_order(next, rest);
        } else {
            lemma_stopped_writer_is_silent(next, rest);
        }
        match steps[0] {
            Step::Submit(payload) => {
                assert(s.outbound + queued(steps) =~= next.outbound + later);
            },
            Step::Shutdown => {
                assert(s.outbound + queued(steps) =~= next.outbound + later);
            },
            Step::WriterTurn => {
                if s.outbound.len() > 0 {
                    assert((s.outbound + later).skip(1) =~= s.outbound.skip(1) + later);
                }
            },
            _ => {},
        }
    }
}

/// Close stops writes. Once the writer loop has seen the close signal it
/// has left for good: whatever is submitted afterwards, and however often
/// the loop is asked, nothing more is written.
pub proof fn lemma_stopped_writer_is_silent(s: Bridge, steps: Seq<Step>)
    requires
        !s.writer_running,
    ensures
        s.wire(steps) == Seq::<String>::empty(),
        !s.run(steps).writer_running,
    decreases steps.len(),
{
    if steps.len() > 0 {
        lemma_stopped_writer_is_silent(s.step(steps[0]), steps.skip(1));
    }
}

/// A writer loop that is left alone for at least as many turns as items are
/// queued writes the bodies of the requests in front of the first close
/// signal, oldest first, and nothing else.
pub proof fn lemma_writer_drains_queue(s: Bridge, turns: nat)
    requires
        s.writer_running,
        turns >= s.outbound.len(),
    ensures
        s.wire(writer_turns(turns)) == drain(s.outbound),
    decreases turns,
{
    let steps = writer_turns(turns);
    if turns > 0 {
        let next = s.step(steps[0]);
        assert(steps.skip(1) =~= writer_turns((turns - 1) as nat));
        if next.writer_running {
            lemma_writer_drains_queue(next, (turns - 1) as nat);
        } else {
            lemma_stopped_writer_is_silent(next, steps.skip(1));
        }
    }
}

/// First in, first out. On a transport for which no shutdown was asked,
/// after any number of requests were submitted one after the other, a writer
/// loop that takes at least as many turns as items are queued writes what
/// was queued before, then exactly the bodies submitted, in the order of
/// submission.
pub proof fn lemma_fifo_order(s: Bridge, payloads: Seq<String>, turns: nat)
    requires
        s.wf(),
        !s.closing,
        turns >= s.outbound.len() + payloads.len(),
    ensures
        s.run(submissions(payloads)).wire(writer_turns(turns)) == s.pending() + payloads,
        s.wire(submissions(payloads) + writer_turns(turns)) == s.pending() + payloads,
        s.outbound.len() == 0 ==> s.wire(submissions(payloads) + writer_turns(turns))
            == payloads,
{
    let sent = s.run(submissions(payloads));
    lemma_submissions(s, payloads);
    lemma_drain_requests(s.outbound, payloads);
    lemma_writer_drains_queue(sent, turns);
    lemma_wire_of_two_runs(s, submissions(payloads), writer_turns(turns));
    assert(Seq::<String>::empty() + (s.pending() + payloads) =~= s.pending() + payloads);
    if s.outbound.len() == 0 {
        assert(s.pending() + payloads =~= payloads);
    }
}

/// A transport that was just made is well formed.
pub proof fn lemma_fresh_is_wf(endpoint: url::Url)
    ensures
        Bridge::fresh(endpoint).wf(),
{
}

/// No step undoes well-formedness: a close signal is in the queue, and the
/// writer loop has left, only where shutdown was asked for.
pub proof fn lemma_wf_is_kept(s: Bridge, steps: Seq<Step>)
    requires
        s.wf(),
    ensures
        s.run(steps).wf(),
    decreases steps.len(),
{
    if steps.len() > 0 {
        lemma_wf_is_kept(s.step(steps[0]), steps.skip(1));
    }
}

/// Nothing that is submitted after shutdown was asked for is ever written.
/// From that moment on, whatever order the steps take, what is written and
/// what the writer has still to write are together what was pending when
/// shutdown was asked for.
pub proof fn lemma_shutdown_bars_later_requests(s: Bridge, steps: Seq<Step>)
    requires
        s.writer_running,
    ensures
        s.shutdown().wire(steps) + s.shutdown().run(steps).pending() == s.pending(),
{
    lemma_outbound_order(s.shutdown(), steps);
    lemma_drain_stops_at_close(s.outbound, queued(steps));
    assert(s.shutdown().outbound + queued(steps) =~= s.outbound + (seq![Info::Close] + queued(
        steps,
    )));
}

/// Nothing is lost, doubled or reordered between the socket and the caller.
/// Whatever the order of the steps, the frames that the caller has taken,
/// followed by those still queued, are the frames that were queued at the
/// start followed by those that the reader loop has read since, in the order
/// in which it read them.
pub proof fn lemma_inbound_order(s: Bridge, steps: Seq<Step>)
    ensures
        s.delivered(steps) + s.run(steps).inbound == s.inbound + s.received(steps),
    decreases steps.len(),
{
    if steps.len() == 0 {
        assert(s.inbound + s.received(steps) =~= s.inbound);
        assert(s.delivered(steps) + s.run(steps).inbound =~= s.inbound);
    } else {
        let next = s.step(steps[0]);
        lemma_inbound_order(next, steps.skip(1));
        let later = next.received(steps.skip(1));
        let taken_later = next.delivered(steps.skip(1));
        let left = s.run(steps).inbound;
        assert(s.taken(steps[0]) + next.inbound =~= s.inbound + s.accepted(steps[0]));
        assert(s.delivered(steps) + left =~= s.taken(steps[0]) + (taken_later + left));
        assert(s.inbound + s.received(steps) =~= (s.inbound + s.accepted(steps[0])) + later);
        assert((s.taken(steps[0]) + next.inbound) + later =~= s.taken(steps[0]) + (next.inbound
            + later));
    }
}

/// A poll never waits for a frame. While nothing is queued for the caller,
/// a poll returns the retry signal and leaves the transport as it was.
pub proof fn lemma_poll_of_empty_queue(s: Bridge)
    requires
        s.inbound.len() == 0,
    ensures
        s.poll_result() == Err::<jsonrpsee::common::Response, TransportError>(
            TransportError::Retry,
        ),
        s.poll() == s,
{
}

/// Once the reader loop has left and the caller has taken what had arrived,
/// every poll returns the retry signal, whatever else happens.
pub proof fn lemma_stopped_reader_only_retries(s: Bridge, steps: Seq<Step>)
    requires
        !s.reader_running,
        s.inbound.len() == 0,
    ensures
        !s.run(steps).reader_running,
        s.run(steps).inbound.len() == 0,
        forall|i: int|
            0 <= i < s.polled(steps).len() ==> s.polled(steps)[i] == Err::<
                jsonrpsee::common::Response,
                TransportError,
            >(TransportError::Retry),
    decreases steps.len(),
{
    if steps.len() > 0 {
        lemma_stopped_reader_only_retries(s.step(steps[0]), steps.skip(1));
    }
}

/// A closed connection ends the reader loop in silence. When a read reports
/// that the connection is closed before any frame has arrived, the loop is
/// told to stop, nothing is queued for the caller, and from then on every
/// poll returns the retry signal.
pub proof fn lemma_closed_connection(s: Bridge, error: ReadError, steps: Seq<Step>)
    requires
        s.reader_running,
        s.inbound.len() == 0,
        error.is_terminal(),
    ensures
        s.reader_action(Err(error)) == ReaderAction::Stop,
        s.reader_turn(Err(error)) == (Bridge { reader_running: false, ..s }),
        forall|i: int|
            0 <= i < s.reader_turn(Err(error)).polled(steps).len() ==> s.reader_turn(
                Err(error),
            ).polled(steps)[i] == Err::<jsonrpsee::common::Response, TransportError>(
                TransportError::Retry,
            ),
{
    lemma_stopped_reader_only_retries(s.reader_turn(Err(error)), steps);
}

/// A connection never goes back. In every run the state after is the state
/// before or a later one: connecting, open, closing, closed.
pub proof fn lemma_no_way_back(s: Bridge, steps: Seq<Step>)
    ensures
        s.phase().rank() <= s.run(steps).phase().rank(),
    decreases steps.len(),
{
    if steps.len() > 0 {
        lemma_no_way_back(s.step(steps[0]), steps.skip(1));
    }
}

/// `payloads` as they stand in the outbound queue.
pub open spec fn requests(payloads: Seq<String>) -> Seq<Info> {
    Seq::new(payloads.len(), |i: int| Info::Request(payloads[i]))
}

proof fn lemma_submissions(s: Bridge, payloads: Seq<String>)
    ensures
        s.run(submissions(payloads)).outbound == s.outbound + requests(payloads),
        s.run(submissions(payloads)).writer_running == s.writer_running,
        s.wire(submissions(payloads)) == Seq::<String>::empty(),
    decreases payloads.len(),
{
    let steps = submissions(payloads);
    if payloads.len() == 0 {
        assert(s.outbound + requests(payloads) =~= s.outbound);
    } else {
        let next = s.step(steps[0]);
        assert(steps.skip(1) =~= submissions(payloads.skip(1)));
        lemma_submissions(next, payloads.skip(1));
        assert(next.outbound + requests(payloads.skip(1)) =~= s.outbound + requests(payloads));
    }
}

proof fn lemma_drain_requests(queue: Seq<Info>, payloads: Seq<String>)
    requires
        forall|i: int| 0 <= i < queue.len() ==> queue[i] is Request,
    ensures
        drain(queue + requests(payloads)) == drain(queue) + payloads,
    decreases queue.len(), payloads.len(),
{
    let whole = queue + requests(payloads);
    if queue.len() > 0 {
        assert(whole.skip(1) =~= queue.skip(1) + requests(payloads));
        lemma_drain_requests(queue.skip(1), payloads);
        assert(drain(whole) =~= drain(queue) + payloads);
    } else if payloads.len() > 0 {
        assert(whole.skip(1) =~= queue + requests(payloads.skip(1)));
        lemma_drain_requests(queue, payloads.skip(1));
        assert(drain(whole) =~= drain(queue) + payloads);
    } else {
        assert(drain(whole) =~= drain(queue) + payloads);
    }
}

proof fn lemma_drain_stops_at_close(queue: Seq<Info>, later: Seq<Info>)
    ensures
        drain(queue + (seq![Info::Close] + later)) == drain(queue),
    decreases queue.len(),
{
    let whole = queue + (seq![Info::Close] + later);
    if queue.len() > 0 {
        assert(whole.skip(1) =~= queue.skip(1) + (seq![Info::Close] + later));
        lemma_drain_stops_at_close(queue.skip(1), later);
    }
}

proof fn lemma_wire_of_two_runs(s: Bridge, first: Seq<Step>, second: Seq<Step>)
    ensures
        s.wire(first + second) == s.wire(first) + s.run(first).wire(second),
    decreases first.len(),
{
    if first.len() == 0 {
        assert(first + second =~= second);
        assert(s.wire(first) + s.run(first).wire(second) =~= s.wire(second));
    } else {
        assert((first + second).skip(1) =~= first.skip(1) + second);
        lemma_wire_of_two_runs(s.step(first[0]), first.skip(1), second);
        assert(s.wire(first + second) =~= s.wire(first) + s.run(first).wire(second));
    }
}

} // verus!
