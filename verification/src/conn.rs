//! Connection server: a perpetual accept / read / respond / teardown
//! loop over one fixed pair of buffers. Each accepted connection is
//! read until the CRLF CRLF terminator arrives, end-of-stream or an
//! error cuts it short, or the receive buffer fills without a
//! terminator (malformed, abandoned). Only a complete request is
//! answered, with exactly one response followed by flush, a drain
//! window, close, another drain window, and a forced abort that
//! guarantees the socket slot is released. A connection abandoned for
//! any reason is aborted without a response and the loop accepts again.
//!
//! The machine is pure: each `step` consumes the event that answered
//! the pending action and says what the runtime must do next. The
//! per-socket idle timeout is enforced by the transport; when it
//! expires the machine simply observes a read or accept error.

use vstd::prelude::*;
use crate::http::FeedOutcome;

verus! {

/// The fixed listening port of the minimal server.
pub const LISTEN_PORT: u16 = 8080;

/// The fixed listening port of the richer, dispatching server.
pub const DISPATCH_LISTEN_PORT: u16 = 8881;

/// Per-socket inactivity timeout, enforced by the transport.
pub const IDLE_TIMEOUT_MS: u64 = 10000;

/// The drain window: how long the peer is given to finish reading
/// before the next teardown step.
pub const DRAIN_WINDOW_MS: u64 = 1000;

/// Capacity of the fixed receive buffer.
pub const RECV_CAPACITY: usize = 1024;

/// Where the server stands with the current connection.
#[derive(Clone, Copy, PartialEq, Eq, Structural, Debug)]
pub enum ConnPhase {
    /// No connection: an accept is pending.
    Listening,
    /// A read into the receive buffer is pending.
    Receiving,
    /// The request completed: the single response write is pending.
    Writing,
    /// The response was written: the flush is pending.
    Flushing,
    /// The response left the device: the first drain window runs.
    DrainingBeforeClose,
    /// The drain window passed: the close of the write side is pending.
    Closing,
    /// Closed: the second drain window runs.
    DrainingBeforeAbort,
    /// The forced release of the connection's resources is pending.
    Aborting,
}

/// What the runtime observed while performing the pending action.
#[derive(Clone, Copy, PartialEq, Eq, Structural, Debug)]
pub enum ConnEvent {
    Accepted,
    AcceptFailed,
    /// A read delivered bytes; the receive buffer reported this.
    ReadData { outcome: FeedOutcome },
    ReadEof,
    ReadError,
    WriteDone,
    WriteError,
    FlushDone,
    FlushError,
    DrainElapsed,
    Closed,
    Aborted,
}

/// The single thing the runtime must do next.
#[derive(Clone, Copy, PartialEq, Eq, Structural, Debug)]
pub enum ConnAction {
    /// Accept on the listening port, idle timeout armed.
    Accept,
    /// Read once into the receive buffer.
    Read,
    /// Write the whole rendered response.
    WriteResponse,
    /// Flush so the bytes leave the device before teardown.
    Flush,
    /// Sleep `DRAIN_WINDOW_MS`.
    WaitDrain,
    /// Close the write side.
    Close,
    /// Forcibly release the connection's resources.
    Abort,
}

/// The action each phase is waiting on.
pub open spec fn pending_action(p: ConnPhase) -> ConnAction {
    match p {
        ConnPhase::Listening => ConnAction::Accept,
        ConnPhase::Receiving => ConnAction::Read,
        ConnPhase::Writing => ConnAction::WriteResponse,
        ConnPhase::Flushing => ConnAction::Flush,
        ConnPhase::DrainingBeforeClose => ConnAction::WaitDrain,
        ConnPhase::Closing => ConnAction::Close,
        ConnPhase::DrainingBeforeAbort => ConnAction::WaitDrain,
        ConnPhase::Aborting => ConnAction::Abort,
    }
}

/// The transition table. Accept failures are logged and retried; a
/// connection cut short by end-of-stream, a read, write or flush
/// error, or an over-long request is abandoned: aborted with no
/// response. An event that does not answer the pending action leaves
/// the phase alone and re-issues that action.
pub open spec fn spec_conn_step(p: ConnPhase, e: ConnEvent) -> (ConnPhase, ConnAction) {
    match (p, e) {
        (ConnPhase::Listening, ConnEvent::Accepted) => (ConnPhase::Receiving, ConnAction::Read),
        (ConnPhase::Listening, ConnEvent::AcceptFailed) => (
            ConnPhase::Listening,
            ConnAction::Accept,
        ),
        (ConnPhase::Receiving, ConnEvent::ReadData { outcome }) => match outcome {
            FeedOutcome::NeedMore => (ConnPhase::Receiving, ConnAction::Read),
            FeedOutcome::Complete => (ConnPhase::Writing, ConnAction::WriteResponse),
            FeedOutcome::Overflow => (ConnPhase::Aborting, ConnAction::Abort),
        },
        (ConnPhase::Receiving, ConnEvent::ReadEof) => (ConnPhase::Aborting, ConnAction::Abort),
        (ConnPhase::Receiving, ConnEvent::ReadError) => (ConnPhase::Aborting, ConnAction::Abort),
        (ConnPhase::Writing, ConnEvent::WriteDone) => (ConnPhase::Flushing, ConnAction::Flush),
        (ConnPhase::Writing, ConnEvent::WriteError) => (ConnPhase::Aborting, ConnAction::Abort),
        (ConnPhase::Flushing, ConnEvent::FlushDone) => (
            ConnPhase::DrainingBeforeClose,
            ConnAction::WaitDrain,
        ),
        (ConnPhase::Flushing, ConnEvent::FlushError) => (ConnPhase::Aborting, ConnAction::Abort),
        (ConnPhase::DrainingBeforeClose, ConnEvent::DrainElapsed) => (
            ConnPhase::Closing,
            ConnAction::Close,
        ),
        (ConnPhase::Closing, ConnEvent::Closed) => (
            ConnPhase::DrainingBeforeAbort,
            ConnAction::WaitDrain,
        ),
        (ConnPhase::DrainingBeforeAbort, ConnEvent::DrainElapsed) => (
            ConnPhase::Aborting,
            ConnAction::Abort,
        ),
        (ConnPhase::Aborting, ConnEvent::Aborted) => (ConnPhase::Listening, ConnAction::Accept),
        _ => (p, pending_action(p)),
    }
}

/// The connection server's whole mutable state between suspension
/// points.
pub struct ConnServer {
    pub phase: ConnPhase,
}

impl ConnServer {
    pub fn new() -> (s: ConnServer)
        ensures
            s.phase == ConnPhase::Listening,
    {
        ConnServer { phase: ConnPhase::Listening }
    }

    /// Consume one event; answer with the next action.
    pub fn step(&mut self, event: &ConnEvent) -> (a: ConnAction)
        ensures
            (final(self).phase, a) == spec_conn_step(old(self).phase, *event),
    {
        let (p, a) = match (self.phase, *event) {
            (ConnPhase::Listening, ConnEvent::Accepted) => (
                ConnPhase::Receiving,
                ConnAction::Read,
            ),
            (ConnPhase::Listening, ConnEvent::AcceptFailed) => (
                ConnPhase::Listening,
                ConnAction::Accept,
            ),
            (ConnPhase::Receiving, ConnEvent::ReadData { outcome }) => match outcome {
                FeedOutcome::NeedMore => (ConnPhase::Receiving, ConnAction::Read),
                FeedOutcome::Complete => (ConnPhase::Writing, ConnAction::WriteResponse),
                FeedOutcome::Overflow => (ConnPhase::Aborting, ConnAction::Abort),
            },
            (ConnPhase::Receiving, ConnEvent::ReadEof) => (ConnPhase::Aborting, ConnAction::Abort),
            (ConnPhase::Receiving, ConnEvent::ReadError) => (
                ConnPhase::Aborting,
                ConnAction::Abort,
            ),
            (ConnPhase::Writing, ConnEvent::WriteDone) => (ConnPhase::Flushing, ConnAction::Flush),
            (ConnPhase::Writing, ConnEvent::WriteError) => (
                ConnPhase::Aborting,
                ConnAction::Abort,
            ),
            (ConnPhase::Flushing, ConnEvent::FlushDone) => (
                ConnPhase::DrainingBeforeClose,
                ConnAction::WaitDrain,
            ),
            (ConnPhase::Flushing, ConnEvent::FlushError) => (
                ConnPhase::Aborting,
                ConnAction::Abort,
            ),
            (ConnPhase::DrainingBeforeClose, ConnEvent::DrainElapsed) => (
                ConnPhase::Closing,
                ConnAction::Close,
            ),
            (ConnPhase::Closing, ConnEvent::Closed) => (
                ConnPhase::DrainingBeforeAbort,
                ConnAction::WaitDrain,
            ),
            (ConnPhase::DrainingBeforeAbort, ConnEvent::DrainElapsed) => (
                ConnPhase::Aborting,
                ConnAction::Abort,
            ),
            (ConnPhase::Aborting, ConnEvent::Aborted) => (
                ConnPhase::Listening,
                ConnAction::Accept,
            ),
            (p, _) => (
                p,
                match p {
                    ConnPhase::Listening => ConnAction::Accept,
                    ConnPhase::Receiving => ConnAction::Read,
                    ConnPhase::Writing => ConnAction::WriteResponse,
                    ConnPhase::Flushing => ConnAction::Flush,
                    ConnPhase::DrainingBeforeClose => ConnAction::WaitDrain,
                    ConnPhase::Closing => ConnAction::Close,
                    ConnPhase::DrainingBeforeAbort => ConnAction::WaitDrain,
                    ConnPhase::Aborting => ConnAction::Abort,
                },
            ),
        };
        self.phase = p;
        a
    }
}

/// The phase after a run of events.
pub open spec fn run_phase(p: ConnPhase, events: Seq<ConnEvent>) -> ConnPhase
    decreases events.len(),
{
    if events.len() == 0 {
        p
    } else {
        run_phase(spec_conn_step(p, events[0]).0, events.drop_first())
    }
}

/// The actions a run of events makes the machine emit, in order.
pub open spec fn run_actions(p: ConnPhase, events: Seq<ConnEvent>) -> Seq<ConnAction>
    decreases events.len(),
{
    if events.len() == 0 {
        Seq::empty()
    } else {
        let (p2, a) = spec_conn_step(p, events[0]);
        seq![a] + run_actions(p2, events.drop_first())
    }
}

/// How many responses a run writes.
pub open spec fn count_writes(actions: Seq<ConnAction>) -> nat
    decreases actions.len(),
{
    if actions.len() == 0 {
        0
    } else {
        (if actions[0] is WriteResponse {
            1nat
        } else {
            0nat
        }) + count_writes(actions.drop_first())
    }
}

/// A run over concatenated events is the two runs chained.
pub proof fn lemma_run_append(p: ConnPhase, a: Seq<ConnEvent>, b: Seq<ConnEvent>)
    ensures
        run_phase(p, a + b) == run_phase(run_phase(p, a), b),
        run_actions(p, a + b) =~= run_actions(p, a) + run_actions(run_phase(p, a), b),
    decreases a.len(),
{
    if a.len() == 0 {
        assert(a + b =~= b);
    } else {
        let p2 = spec_conn_step(p, a[0]).0;
        lemma_run_append(p2, a.drop_first(), b);
        assert((a + b).drop_first() =~= a.drop_first() + b);
    }
}

/// Counting writes distributes over concatenation.
pub proof fn lemma_count_writes_append(a: Seq<ConnAction>, b: Seq<ConnAction>)
    ensures
        count_writes(a + b) == count_writes(a) + count_writes(b),
    decreases a.len(),
{
    if a.len() == 0 {
        assert(a + b =~= b);
    } else {
        lemma_count_writes_append(a.drop_first(), b);
        assert((a + b).drop_first() =~= a.drop_first() + b);
    }
}

/// A response is written only as the immediate answer to a complete
/// request: no other phase and event can emit one.
pub proof fn lemma_write_needs_complete(p: ConnPhase, e: ConnEvent)
    ensures
        spec_conn_step(p, e).1 == ConnAction::WriteResponse <==> (p is Receiving && e == (
        ConnEvent::ReadData { outcome: FeedOutcome::Complete })) || (p is Writing
            && spec_conn_step(p, e) == (p, pending_action(p))),
{
}

/// A request ending in end-of-stream, an error or an overflow before
/// the terminator gets no response: a run in which no read completes —
/// and in which the runtime never repeats an unanswered write — writes
/// nothing, from any phase but one already mid-response.
pub proof fn lemma_no_complete_no_response(p: ConnPhase, events: Seq<ConnEvent>)
    requires
        !(p is Writing),
        forall|i: int|
            0 <= i < events.len() ==> !((#[trigger] events[i]) matches ConnEvent::ReadData {
                outcome: FeedOutcome::Complete,
            }),
    ensures
        count_writes(run_actions(p, events)) == 0,
    decreases events.len(),
{
    if events.len() > 0 {
        let (p2, a) = spec_conn_step(p, events[0]);
        assert(!(events[0] matches ConnEvent::ReadData { outcome: FeedOutcome::Complete }));
        assert(a != ConnAction::WriteResponse);
        assert(!(p2 is Writing));
        assert(forall|i: int|
            0 <= i < events.drop_first().len() ==> !((#[trigger] events.drop_first()[i]) matches
            ConnEvent::ReadData { outcome: FeedOutcome::Complete }));
        lemma_no_complete_no_response(p2, events.drop_first());
        lemma_count_writes_append(seq![a], run_actions(p2, events.drop_first()));
        assert(run_actions(p, events) =~= seq![a] + run_actions(p2, events.drop_first()));
        assert(count_writes(seq![a]) == 0) by {
            reveal_with_fuel(count_writes, 2);
            assert(seq![a].drop_first() =~= Seq::<ConnAction>::empty());
        }
    }
}

/// Reads that merely accumulate keep the server receiving and write
/// nothing.
pub proof fn lemma_needmore_keeps_receiving(events: Seq<ConnEvent>)
    requires
        forall|i: int|
            0 <= i < events.len() ==> (#[trigger] events[i]) == (ConnEvent::ReadData {
                outcome: FeedOutcome::NeedMore,
            }),
    ensures
        run_phase(ConnPhase::Receiving, events) == ConnPhase::Receiving,
        count_writes(run_actions(ConnPhase::Receiving, events)) == 0,
    decreases events.len(),
{
    if events.len() > 0 {
        assert(events[0] == (ConnEvent::ReadData { outcome: FeedOutcome::NeedMore }));
        lemma_needmore_keeps_receiving(events.drop_first());
        let (p2, a) = spec_conn_step(ConnPhase::Receiving, events[0]);
        lemma_count_writes_append(seq![a], run_actions(p2, events.drop_first()));
        assert(run_actions(ConnPhase::Receiving, events) =~= seq![a] + run_actions(
            p2,
            events.drop_first(),
        ));
        assert(count_writes(seq![a]) == 0) by {
            reveal_with_fuel(count_writes, 2);
            assert(seq![a].drop_first() =~= Seq::<ConnAction>::empty());
        }
    }
}

/// The events of one whole successful connection: an accept, any
/// number of partial reads, the read that completes the request, and
/// the runtime's answers through the teardown.
pub open spec fn successful_connection_events(partial_reads: Seq<ConnEvent>) -> Seq<ConnEvent> {
    seq![ConnEvent::Accepted] + partial_reads + seq![
        ConnEvent::ReadData { outcome: FeedOutcome::Complete },
        ConnEvent::WriteDone,
        ConnEvent::FlushDone,
        ConnEvent::DrainElapsed,
        ConnEvent::Closed,
        ConnEvent::DrainElapsed,
        ConnEvent::Aborted,
    ]
}

/// For every request whose bytes present the terminator within buffer
/// capacity, whatever the number of partial reads before it: the
/// server writes exactly one response, follows it with flush, drain,
/// close, drain, abort in that order, and stands listening again.
#[verifier::rlimit(100)]
pub proof fn lemma_one_response_then_teardown(partial_reads: Seq<ConnEvent>)
    requires
        forall|i: int|
            0 <= i < partial_reads.len() ==> (#[trigger] partial_reads[i]) == (
            ConnEvent::ReadData { outcome: FeedOutcome::NeedMore }),
    ensures
        run_phase(ConnPhase::Listening, successful_connection_events(partial_reads))
            == ConnPhase::Listening,
        count_writes(
            run_actions(ConnPhase::Listening, successful_connection_events(partial_reads)),
        ) == 1,
        run_actions(ConnPhase::Listening, successful_connection_events(partial_reads)) =~= seq![
            ConnAction::Read,
        ] + run_actions(ConnPhase::Receiving, partial_reads) + seq![
            ConnAction::WriteResponse,
            ConnAction::Flush,
            ConnAction::WaitDrain,
            ConnAction::Close,
            ConnAction::WaitDrain,
            ConnAction::Abort,
            ConnAction::Accept,
        ],
{
    let accept = seq![ConnEvent::Accepted];
    let finish = seq![
        ConnEvent::ReadData { outcome: FeedOutcome::Complete },
        ConnEvent::WriteDone,
        ConnEvent::FlushDone,
        ConnEvent::DrainElapsed,
        ConnEvent::Closed,
        ConnEvent::DrainElapsed,
        ConnEvent::Aborted,
    ];
    let all = successful_connection_events(partial_reads);
    assert(all =~= accept + (partial_reads + finish));
    lemma_run_append(ConnPhase::Listening, accept, partial_reads + finish);
    assert(run_phase(ConnPhase::Listening, accept) == ConnPhase::Receiving) by {
        reveal_with_fuel(run_phase, 2);
        assert(accept.drop_first() =~= Seq::<ConnEvent>::empty());
    }
    lemma_run_append(ConnPhase::Receiving, partial_reads, finish);
    lemma_needmore_keeps_receiving(partial_reads);
    assert(run_actions(ConnPhase::Receiving, finish) =~= seq![
        ConnAction::WriteResponse,
        ConnAction::Flush,
        ConnAction::WaitDrain,
        ConnAction::Close,
        ConnAction::WaitDrain,
        ConnAction::Abort,
        ConnAction::Accept,
    ]) by {
        reveal_with_fuel(run_actions, 8);
    }
    assert(run_phase(ConnPhase::Receiving, finish) == ConnPhase::Listening) by {
        reveal_with_fuel(run_phase, 8);
    }
    lemma_count_writes_append(
        run_actions(ConnPhase::Listening, accept),
        run_actions(ConnPhase::Receiving, partial_reads + finish),
    );
    lemma_count_writes_append(
        run_actions(ConnPhase::Receiving, partial_reads),
        run_actions(ConnPhase::Receiving, finish),
    );
    assert(count_writes(run_actions(ConnPhase::Receiving, finish)) == 1) by {
        reveal_with_fuel(count_writes, 8);
    }
    assert(run_actions(ConnPhase::Listening, accept) =~= seq![ConnAction::Read]) by {
        reveal_with_fuel(run_actions, 2);
        assert(accept.drop_first() =~= Seq::<ConnEvent>::empty());
    }
    assert(count_writes(seq![ConnAction::Read]) == 0) by {
        reveal_with_fuel(count_writes, 2);
        assert(seq![ConnAction::Read].drop_first() =~= Seq::<ConnAction>::empty());
    }
}

} // verus!
