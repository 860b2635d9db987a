use netsup::conn::{
    ConnAction, ConnEvent, ConnPhase, ConnServer, DISPATCH_LISTEN_PORT, DRAIN_WINDOW_MS,
    IDLE_TIMEOUT_MS, LISTEN_PORT,
};
use netsup::http::FeedOutcome;

#[test]
fn configured_ports_and_timeouts() {
    assert_eq!(LISTEN_PORT, 8080);
    assert_eq!(DISPATCH_LISTEN_PORT, 8881);
    assert_eq!(IDLE_TIMEOUT_MS, 10_000);
    assert_eq!(DRAIN_WINDOW_MS, 1000);
}

#[test]
fn complete_request_gets_one_response_then_close_wait_abort() {
    let mut s = ConnServer::new();
    let events = [
        ConnEvent::Accepted,
        ConnEvent::ReadData { outcome: FeedOutcome::NeedMore },
        ConnEvent::ReadData { outcome: FeedOutcome::Complete },
        ConnEvent::WriteDone,
        ConnEvent::FlushDone,
        ConnEvent::DrainElapsed,
        ConnEvent::Closed,
        ConnEvent::DrainElapsed,
        ConnEvent::Aborted,
    ];
    let actions: Vec<ConnAction> = events.iter().map(|e| s.step(e)).collect();
    assert_eq!(
        actions,
        vec![
            ConnAction::Read,
            ConnAction::Read,
            ConnAction::WriteResponse,
            ConnAction::Flush,
            ConnAction::WaitDrain,
            ConnAction::Close,
            ConnAction::WaitDrain,
            ConnAction::Abort,
            ConnAction::Accept,
        ]
    );
    // Exactly one response was written and the loop listens again.
    let writes = actions.iter().filter(|a| **a == ConnAction::WriteResponse).count();
    assert_eq!(writes, 1);
    assert_eq!(s.phase, ConnPhase::Listening);
}

#[test]
fn end_of_stream_before_terminator_gets_no_response() {
    let mut s = ConnServer::new();
    let events = [
        ConnEvent::Accepted,
        ConnEvent::ReadData { outcome: FeedOutcome::NeedMore },
        ConnEvent::ReadEof,
        ConnEvent::Aborted,
    ];
    let actions: Vec<ConnAction> = events.iter().map(|e| s.step(e)).collect();
    assert!(actions.iter().all(|a| *a != ConnAction::WriteResponse));
    assert_eq!(actions.last(), Some(&ConnAction::Accept));
    assert_eq!(s.phase, ConnPhase::Listening);
}

#[test]
fn idle_timeout_aborts_and_the_loop_accepts_again() {
    // The transport enforces the per-socket idle timeout; the server
    // merely observes the resulting read error, aborts without a
    // response, and proceeds to the next accept without crashing.
    let mut s = ConnServer::new();
    assert_eq!(s.step(&ConnEvent::Accepted), ConnAction::Read);
    assert_eq!(s.step(&ConnEvent::ReadError), ConnAction::Abort);
    assert_eq!(s.step(&ConnEvent::Aborted), ConnAction::Accept);
    assert_eq!(s.phase, ConnPhase::Listening);
}

#[test]
fn oversized_request_is_abandoned_without_response() {
    let mut s = ConnServer::new();
    s.step(&ConnEvent::Accepted);
    assert_eq!(
        s.step(&ConnEvent::ReadData { outcome: FeedOutcome::Overflow }),
        ConnAction::Abort
    );
    assert_eq!(s.step(&ConnEvent::Aborted), ConnAction::Accept);
}

#[test]
fn accept_failure_never_terminates_the_server() {
    let mut s = ConnServer::new();
    assert_eq!(s.step(&ConnEvent::AcceptFailed), ConnAction::Accept);
    assert_eq!(s.step(&ConnEvent::AcceptFailed), ConnAction::Accept);
    assert_eq!(s.step(&ConnEvent::Accepted), ConnAction::Read);
}

#[test]
fn write_error_abandons_the_connection() {
    let mut s = ConnServer::new();
    s.step(&ConnEvent::Accepted);
    s.step(&ConnEvent::ReadData { outcome: FeedOutcome::Complete });
    assert_eq!(s.step(&ConnEvent::WriteError), ConnAction::Abort);
    assert_eq!(s.step(&ConnEvent::Aborted), ConnAction::Accept);
}
