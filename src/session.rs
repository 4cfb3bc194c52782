use vstd::prelude::*;

verus! {

/// Where one client connection stands in its life.
#[derive(Clone, Copy, Debug, PartialEq, Eq, Structural)]
pub enum SessionState {
    /// The client connection was accepted and a server chosen.
    Accepted,
    /// Dialling the chosen server.
    Connecting,
    /// Connected; the proxy handshake with the server is under way.
    Handshaking,
    /// Both copy directions are running.
    Relaying,
    /// One copy direction finished and the tunnel was torn down.
    Closed,
    /// Connecting or handshaking failed; nothing was relayed.
    Errored,
}

/// One of the two copy directions of a tunnel.
#[derive(Clone, Copy, Debug, PartialEq, Eq, Structural)]
pub enum Direction {
    /// Client read half to server write half.
    ClientToServer,
    /// Server read half to client write half.
    ServerToClient,
}

/// How a copy direction ended.
#[derive(Clone, Copy, Debug, PartialEq, Eq, Structural)]
pub enum CopyEnd {
    /// End of stream on its read half.
    Eof,
    /// An I/O error of kind "timed out".
    TimedOut,
    /// Any other I/O error.
    Failed,
}

/// How loudly an event is reported.
#[derive(Clone, Copy, Debug, PartialEq, Eq, Structural)]
pub enum Severity {
    /// Expected; reported at trace level.
    Trace,
    /// Unexpected; reported at error level.
    Error,
}

/// What the driver of a session observed.
#[derive(Clone, Copy, Debug, PartialEq, Eq, Structural)]
pub enum SessionEvent {
    /// The session is to begin.
    Start,
    /// The transport connection to the server was opened.
    Connected,
    /// Opening the transport connection failed.
    ConnectFailed,
    /// The proxy handshake succeeded.
    Handshaken,
    /// The proxy handshake failed.
    HandshakeFailed,
    /// The first of the two copy directions to finish did so.
    CopyFinished(Direction, CopyEnd),
}

/// What the driver of a session is to do next.
#[derive(Clone, Copy, Debug, PartialEq, Eq, Structural)]
pub enum SessionAction {
    /// Dial the chosen server.
    Connect,
    /// Perform the proxy handshake, with the fixed target address.
    Handshake,
    /// Split both connections and run the two copy directions at once,
    /// reporting whichever finishes first.
    Relay,
    /// Close the client connection without relaying and report the failure.
    Abort,
    /// Drop both connections, which abandons the other copy direction, and
    /// report which side closed, at the given severity.
    Teardown(Direction, Severity),
    /// Nothing to do.
    Idle,
}

/// Severity with which the end of a copy direction is reported: a timeout is
/// expected under idle timeouts, any other error is not.
pub open spec fn end_severity(end: CopyEnd) -> Severity {
    match end {
        CopyEnd::Failed => Severity::Error,
        _ => Severity::Trace,
    }
}

/// The next state of a session and the action that goes with it. An event
/// that does not fit the state leaves it as it is; `Closed` and `Errored`
/// are final.
pub open spec fn transition(state: SessionState, event: SessionEvent) -> (SessionState, SessionAction) {
    match (state, event) {
        (SessionState::Accepted, SessionEvent::Start) => (SessionState::Connecting, SessionAction::Connect),
        (SessionState::Connecting, SessionEvent::Connected) => (
            SessionState::Handshaking,
            SessionAction::Handshake,
        ),
        (SessionState::Connecting, SessionEvent::ConnectFailed) => (SessionState::Errored, SessionAction::Abort),
        (SessionState::Handshaking, SessionEvent::Handshaken) => (SessionState::Relaying, SessionAction::Relay),
        (SessionState::Handshaking, SessionEvent::HandshakeFailed) => (
            SessionState::Errored,
            SessionAction::Abort,
        ),
        (SessionState::Relaying, SessionEvent::CopyFinished(d, end)) => (
            SessionState::Closed,
            SessionAction::Teardown(d, end_severity(end)),
        ),
        _ => (state, SessionAction::Idle),
    }
}

pub fn copy_end_severity(end: CopyEnd) -> (r: Severity)
    ensures
        r == end_severity(end),
{
    match end {
        CopyEnd::Failed => Severity::Error,
        _ => Severity::Trace,
    }
}

/// One step of a session: the next state and what to do.
pub fn step(state: SessionState, event: SessionEvent) -> (r: (SessionState, SessionAction))
    ensures
        r == transition(state, event),
{
    match (state, event) {
        (SessionState::Accepted, SessionEvent::Start) => (SessionState::Connecting, SessionAction::Connect),
        (SessionState::Connecting, SessionEvent::Connected) => (
            SessionState::Handshaking,
            SessionAction::Handshake,
        ),
        (SessionState::Connecting, SessionEvent::ConnectFailed) => (SessionState::Errored, SessionAction::Abort),
        (SessionState::Handshaking, SessionEvent::Handshaken) => (SessionState::Relaying, SessionAction::Relay),
        (SessionState::Handshaking, SessionEvent::HandshakeFailed) => (
            SessionState::Errored,
            SessionAction::Abort,
        ),
        (SessionState::Relaying, SessionEvent::CopyFinished(d, end)) => (
            SessionState::Closed,
            SessionAction::Teardown(d, copy_end_severity(end)),
        ),
        _ => (state, SessionAction::Idle),
    }
}

/// The state reached from `state` after `events`, in order.
pub open spec fn run_events(state: SessionState, events: Seq<SessionEvent>) -> SessionState
    decreases events.len(),
{
    if events.len() == 0 {
        state
    } else {
        run_events(transition(state, events[0]).0, events.drop_first())
    }
}

/// Whether some step from `state` through `events` asks to relay.
pub open spec fn relays_on(state: SessionState, events: Seq<SessionEvent>) -> bool
    decreases events.len(),
{
    if events.len() == 0 {
        false
    } else {
        transition(state, events[0]).1 == SessionAction::Relay || relays_on(
            transition(state, events[0]).0,
            events.drop_first(),
        )
    }
}

/// One finished direction ends the tunnel: the session closes, the action
/// tears both connections down, and a later completion of the other
/// direction changes nothing.
pub proof fn lemma_one_side_closes(d: Direction, end: CopyEnd, later: SessionEvent)
    ensures
        transition(SessionState::Relaying, SessionEvent::CopyFinished(d, end)) == (
            SessionState::Closed,
            SessionAction::Teardown(d, end_severity(end)),
        ),
        transition(SessionState::Closed, later) == (SessionState::Closed, SessionAction::Idle),
{
}

/// A timeout and any other error on a copy direction end the session in the
/// same way; only the severity of the report differs.
pub proof fn lemma_timeout_and_error_close_alike(d: Direction)
    ensures
        transition(SessionState::Relaying, SessionEvent::CopyFinished(d, CopyEnd::TimedOut)).0
            == transition(SessionState::Relaying, SessionEvent::CopyFinished(d, CopyEnd::Failed)).0,
        transition(SessionState::Relaying, SessionEvent::CopyFinished(d, CopyEnd::TimedOut)).1
            == SessionAction::Teardown(d, Severity::Trace),
        transition(SessionState::Relaying, SessionEvent::CopyFinished(d, CopyEnd::Failed)).1
            == SessionAction::Teardown(d, Severity::Error),
{
}

/// Once a session has errored it stays errored and never relays, whatever
/// the driver reports afterwards.
pub proof fn lemma_errored_never_relays(events: Seq<SessionEvent>)
    ensures
        run_events(SessionState::Errored, events) == SessionState::Errored,
        !relays_on(SessionState::Errored, events),
    decreases events.len(),
{
    if events.len() > 0 {
        lemma_errored_never_relays(events.drop_first());
    }
}

/// A failed connect or handshake closes the client connection and leaves the
/// session errored, so no byte is relayed through it.
pub proof fn lemma_upstream_failure_isolated(events: Seq<SessionEvent>)
    ensures
        transition(SessionState::Connecting, SessionEvent::ConnectFailed) == (
            SessionState::Errored,
            SessionAction::Abort,
        ),
        transition(SessionState::Handshaking, SessionEvent::HandshakeFailed) == (
            SessionState::Errored,
            SessionAction::Abort,
        ),
        !relays_on(SessionState::Connecting, seq![SessionEvent::ConnectFailed] + events),
        !relays_on(SessionState::Handshaking, seq![SessionEvent::HandshakeFailed] + events),
{
    lemma_errored_never_relays(events);
    assert((seq![SessionEvent::ConnectFailed] + events).drop_first() =~= events);
    assert((seq![SessionEvent::HandshakeFailed] + events).drop_first() =~= events);
}

/// The life of one client connection.
pub struct TunnelSession {
    pub state: SessionState,
}

impl TunnelSession {
    pub fn new() -> (r: TunnelSession)
        ensures
            r.state == SessionState::Accepted,
    {
        TunnelSession { state: SessionState::Accepted }
    }

    /// Moves the session on by `event` and returns what the driver is to do.
    pub fn handle(&mut self, event: SessionEvent) -> (r: SessionAction)
        ensures
            (final(self).state, r) == transition(old(self).state, event),
    {
        let (next, action) = step(self.state, event);
        self.state = next;
        action
    }

    pub fn is_finished(&self) -> (r: bool)
        ensures
            r == (self.state == SessionState::Closed || self.state == SessionState::Errored),
    {
        match self.state {
            SessionState::Closed | SessionState::Errored => true,
            _ => false,
        }
    }
}

} // verus!
