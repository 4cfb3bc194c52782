use tunnel_local::session::{
    copy_end_severity, step, CopyEnd, Direction, SessionAction, SessionEvent, SessionState,
    Severity, TunnelSession,
};

fn relay_ready() -> TunnelSession {
    let mut s = TunnelSession::new();
    assert_eq!(s.handle(SessionEvent::Start), SessionAction::Connect);
    assert_eq!(s.handle(SessionEvent::Connected), SessionAction::Handshake);
    assert_eq!(s.handle(SessionEvent::Handshaken), SessionAction::Relay);
    assert_eq!(s.state, SessionState::Relaying);
    s
}

#[test]
fn client_eof_terminates_tunnel() {
    let mut s = relay_ready();
    let a = s.handle(SessionEvent::CopyFinished(Direction::ClientToServer, CopyEnd::Eof));
    assert_eq!(a, SessionAction::Teardown(Direction::ClientToServer, Severity::Trace));
    assert_eq!(s.state, SessionState::Closed);
    assert!(s.is_finished());
    let later = s.handle(SessionEvent::CopyFinished(Direction::ServerToClient, CopyEnd::Eof));
    assert_eq!(later, SessionAction::Idle);
    assert_eq!(s.state, SessionState::Closed);
}

#[test]
fn timeout_and_error_close_alike() {
    let mut a = relay_ready();
    let mut b = relay_ready();
    let ra = a.handle(SessionEvent::CopyFinished(Direction::ServerToClient, CopyEnd::TimedOut));
    let rb = b.handle(SessionEvent::CopyFinished(Direction::ServerToClient, CopyEnd::Failed));
    assert_eq!(a.state, b.state);
    assert_eq!(ra, SessionAction::Teardown(Direction::ServerToClient, Severity::Trace));
    assert_eq!(rb, SessionAction::Teardown(Direction::ServerToClient, Severity::Error));
    assert_eq!(copy_end_severity(CopyEnd::TimedOut), Severity::Trace);
    assert_eq!(copy_end_severity(CopyEnd::Failed), Severity::Error);
    assert_eq!(copy_end_severity(CopyEnd::Eof), Severity::Trace);
}

#[test]
fn connect_failure_aborts_without_relay() {
    let mut failing = TunnelSession::new();
    let mut healthy = TunnelSession::new();
    assert_eq!(failing.handle(SessionEvent::Start), SessionAction::Connect);
    assert_eq!(healthy.handle(SessionEvent::Start), SessionAction::Connect);
    assert_eq!(failing.handle(SessionEvent::ConnectFailed), SessionAction::Abort);
    assert_eq!(failing.state, SessionState::Errored);
    assert_eq!(failing.handle(SessionEvent::Handshaken), SessionAction::Idle);
    assert_eq!(failing.state, SessionState::Errored);
    assert_eq!(healthy.handle(SessionEvent::Connected), SessionAction::Handshake);
    assert_eq!(healthy.handle(SessionEvent::Handshaken), SessionAction::Relay);
    assert_eq!(healthy.state, SessionState::Relaying);
}

#[test]
fn handshake_failure_aborts_without_relay() {
    let mut s = TunnelSession::new();
    s.handle(SessionEvent::Start);
    s.handle(SessionEvent::Connected);
    assert_eq!(s.handle(SessionEvent::HandshakeFailed), SessionAction::Abort);
    assert_eq!(s.state, SessionState::Errored);
    assert!(s.is_finished());
}

#[test]
fn out_of_order_events_are_ignored() {
    assert_eq!(
        step(SessionState::Accepted, SessionEvent::Handshaken),
        (SessionState::Accepted, SessionAction::Idle)
    );
    assert_eq!(
        step(SessionState::Connecting, SessionEvent::CopyFinished(Direction::ClientToServer, CopyEnd::Eof)),
        (SessionState::Connecting, SessionAction::Idle)
    );
    assert!(!TunnelSession::new().is_finished());
}
