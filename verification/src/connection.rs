//! The task of one connection: handshake, HTTP/3 set-up, request loop and
//! hand-over to the session.
//!
//! A connection that completes its handshake gets an HTTP/3 layer with the
//! server's settings. Its requests are then taken one by one: a CONNECT
//! request is upgraded to a WebTransport session, any other request is
//! reported and passed over. With the upgrade the request loop ends and the
//! session takes over, so a connection carries at most one session; a later
//! CONNECT request finds no loop that would take it. A failure anywhere ends
//! the work on this one connection and leaves every other connection alone.

use crate::config::{fixed_http3, http3_settings, Http3Settings};
use crate::session::SessionEnd;
use vstd::prelude::*;

verus! {

/// Why the task of a connection ended.
#[derive(Clone, Copy, Debug, PartialEq, Eq, Structural)]
pub enum ConnectionEnd {
    /// The transport handshake failed.
    HandshakeFailed,
    /// The transport handshake did not complete in time.
    HandshakeTimedOut,
    /// The HTTP/3 layer could not be set up.
    Http3Failed,
    /// Taking the next request failed.
    RequestFailed,
    /// The peer closed the connection before it asked for a session.
    PeerClosed,
    /// The CONNECT request could not be upgraded.
    UpgradeFailed,
    /// The session ran and ended, for this reason.
    Session(SessionEnd),
}

/// Where the task of a connection stands.
#[derive(Clone, Copy, Debug, PartialEq, Eq, Structural)]
pub enum ConnectionState {
    /// The transport handshake is in progress.
    Handshaking,
    /// The HTTP/3 layer is being set up.
    Negotiating,
    /// Waiting for the next HTTP/3 request.
    AwaitingRequest,
    /// A CONNECT request is being upgraded.
    Upgrading,
    /// The session with this id runs.
    InSession(u64),
    /// The task is over.
    Closed(ConnectionEnd),
}

/// The two kinds of request the server tells apart.
#[derive(Clone, Copy, Debug, PartialEq, Eq, Structural)]
pub enum RequestKind {
    /// The method is CONNECT.
    Connect,
    /// Any other method.
    Other,
}

/// What happened, as the driver of a connection's task reports it.
#[derive(Clone, Copy, Debug, PartialEq, Eq, Structural)]
pub enum ConnectionEvent {
    /// The transport handshake is complete.
    Established,
    /// The transport handshake failed.
    HandshakeFailed,
    /// The transport handshake did not complete in time.
    HandshakeTimedOut,
    /// The HTTP/3 layer is set up.
    Http3Ready,
    /// The HTTP/3 layer could not be set up.
    Http3Failed,
    /// A request of this kind came in.
    Request(RequestKind),
    /// No request came in: the connection is closed.
    PeerClosed,
    /// Taking the next request failed.
    RequestFailed,
    /// The upgrade gave the session with this id.
    Upgraded(u64),
    /// The upgrade failed.
    UpgradeFailed,
    /// The session loop returned, for this reason.
    SessionEnded(SessionEnd),
}

/// What the driver of a connection's task does next.
#[derive(Clone, Copy, Debug, PartialEq, Eq, Structural)]
pub enum ConnectionAction {
    /// Set up HTTP/3 over the connection with these settings.
    BuildHttp3(Http3Settings),
    /// Wait for the next request.
    AcceptRequest,
    /// Upgrade the request to a WebTransport session.
    Upgrade,
    /// Report the request and wait for the next one.
    SkipRequest,
    /// Run the session with this id until it ends.
    RunSession(u64),
    /// Report why the task ends, and end it.
    Finish(ConnectionEnd),
    /// The event does not apply to the state; nothing is to be done.
    Ignore,
}

/// The seven bytes `CONNECT`.
pub open spec fn connect_token() -> Seq<u8> {
    seq![67u8, 79u8, 78u8, 78u8, 69u8, 67u8, 84u8]
}

/// The kind of a request with this method.
pub open spec fn kind_of(method: Seq<u8>) -> RequestKind {
    if method == connect_token() {
        RequestKind::Connect
    } else {
        RequestKind::Other
    }
}

/// The task's transition: the state and the action that follow `event` in
/// `state`.
pub open spec fn connection_transition(state: ConnectionState, event: ConnectionEvent) -> (
    ConnectionState,
    ConnectionAction,
) {
    match (state, event) {
        (ConnectionState::Handshaking, ConnectionEvent::Established) => (
            ConnectionState::Negotiating,
            ConnectionAction::BuildHttp3(fixed_http3()),
        ),
        (ConnectionState::Handshaking, ConnectionEvent::HandshakeFailed) => (
            ConnectionState::Closed(ConnectionEnd::HandshakeFailed),
            ConnectionAction::Finish(ConnectionEnd::HandshakeFailed),
        ),
        (ConnectionState::Handshaking, ConnectionEvent::HandshakeTimedOut) => (
            ConnectionState::Closed(ConnectionEnd::HandshakeTimedOut),
            ConnectionAction::Finish(ConnectionEnd::HandshakeTimedOut),
        ),
        (ConnectionState::Negotiating, ConnectionEvent::Http3Ready) => (
            ConnectionState::AwaitingRequest,
            ConnectionAction::AcceptRequest,
        ),
        (ConnectionState::Negotiating, ConnectionEvent::Http3Failed) => (
            ConnectionState::Closed(ConnectionEnd::Http3Failed),
            ConnectionAction::Finish(ConnectionEnd::Http3Failed),
        ),
        (ConnectionState::AwaitingRequest, ConnectionEvent::Request(RequestKind::Connect)) => (
            ConnectionState::Upgrading,
            ConnectionAction::Upgrade,
        ),
        (ConnectionState::AwaitingRequest, ConnectionEvent::Request(RequestKind::Other)) => (
            ConnectionState::AwaitingRequest,
            ConnectionAction::SkipRequest,
        ),
        (ConnectionState::AwaitingRequest, ConnectionEvent::PeerClosed) => (
            ConnectionState::Closed(ConnectionEnd::PeerClosed),
            ConnectionAction::Finish(ConnectionEnd::PeerClosed),
        ),
        (ConnectionState::AwaitingRequest, ConnectionEvent::RequestFailed) => (
            ConnectionState::Closed(ConnectionEnd::RequestFailed),
            ConnectionAction::Finish(ConnectionEnd::RequestFailed),
        ),
        (ConnectionState::Upgrading, ConnectionEvent::Upgraded(id)) => (
            ConnectionState::InSession(id),
            ConnectionAction::RunSession(id),
        ),
        (ConnectionState::Upgrading, ConnectionEvent::UpgradeFailed) => (
            ConnectionState::Closed(ConnectionEnd::UpgradeFailed),
            ConnectionAction::Finish(ConnectionEnd::UpgradeFailed),
        ),
        (ConnectionState::InSession(_), ConnectionEvent::SessionEnded(end)) => (
            ConnectionState::Closed(ConnectionEnd::Session(end)),
            ConnectionAction::Finish(ConnectionEnd::Session(end)),
        ),
        _ => (state, ConnectionAction::Ignore),
    }
}

/// The state after a run of events, starting in `state`.
pub open spec fn connection_run(state: ConnectionState, events: Seq<ConnectionEvent>) -> ConnectionState
    decreases events.len(),
{
    if events.len() == 0 {
        state
    } else {
        connection_run(connection_transition(state, events[0]).0, events.skip(1))
    }
}

/// The actions asked for over a run of events, starting in `state`, one for
/// each event.
pub open spec fn connection_actions(state: ConnectionState, events: Seq<ConnectionEvent>) -> Seq<
    ConnectionAction,
>
    decreases events.len(),
{
    if events.len() == 0 {
        Seq::empty()
    } else {
        let (next, action) = connection_transition(state, events[0]);
        seq![action] + connection_actions(next, events.skip(1))
    }
}

/// The number of sessions that `actions` start.
pub open spec fn sessions_started(actions: Seq<ConnectionAction>) -> nat
    decreases actions.len(),
{
    if actions.len() == 0 {
        0
    } else {
        let here: nat = if actions[0] is RunSession {
            1
        } else {
            0
        };
        here + sessions_started(actions.skip(1))
    }
}

/// The number of live sessions of a connection whose task is in `state`.
pub open spec fn live_sessions(state: ConnectionState) -> nat {
    if state is InSession {
        1
    } else {
        0
    }
}

/// Whether an action belongs to the HTTP/3 side of the task: setting the
/// layer up, taking or passing over a request, upgrading, running a session.
pub open spec fn is_http3_work(action: ConnectionAction) -> bool {
    action is BuildHttp3 || action is AcceptRequest || action is Upgrade || action is SkipRequest
        || action is RunSession
}

/// Tells a CONNECT request from any other by its method, written as in the
/// request: upper case, byte for byte.
pub fn request_kind(method: &[u8]) -> (kind: RequestKind)
    ensures
        kind == kind_of(method@),
{
    let token: [u8; 7] = [67, 79, 78, 78, 69, 67, 84];
    assert(token@ =~= connect_token());
    if method.len() != 7 {
        return RequestKind::Other;
    }
    let mut i: usize = 0;
    while i < 7
        invariant
            i <= 7,
            method.len() == 7,
            token@ == connect_token(),
            forall|j: int| 0 <= j < i ==> method@[j] == connect_token()[j],
        decreases 7 - i,
    {
        if method[i] != token[i] {
            assert(method@[i as int] != connect_token()[i as int]);
            return RequestKind::Other;
        }
        i += 1;
    }
    assert(method@ =~= connect_token());
    RequestKind::Connect
}

/// The task of one connection.
#[derive(Debug, PartialEq, Eq)]
pub struct ConnectionTask {
    state: ConnectionState,
}

impl View for ConnectionTask {
    type V = ConnectionState;

    closed spec fn view(&self) -> ConnectionState {
        self.state
    }
}

impl ConnectionTask {
    /// The task of a connection attempt that was just taken. Its driver
    /// starts by waiting for the handshake to complete.
    pub fn new() -> (task: ConnectionTask)
        ensures
            task@ == ConnectionState::Handshaking,
    {
        ConnectionTask { state: ConnectionState::Handshaking }
    }

    /// Where the task stands.
    pub fn state(&self) -> (state: ConnectionState)
        ensures
            state == self@,
    {
        self.state
    }

    /// Takes `event` in and tells the driver what to do next.
    pub fn step(&mut self, event: ConnectionEvent) -> (action: ConnectionAction)
        ensures
            (final(self)@, action) == connection_transition(old(self)@, event),
    {
        let (next, action) = match (self.state, event) {
            (ConnectionState::Handshaking, ConnectionEvent::Established) => (
                ConnectionState::Negotiating,
                ConnectionAction::BuildHttp3(http3_settings()),
            ),
            (ConnectionState::Handshaking, ConnectionEvent::HandshakeFailed) => (
                ConnectionState::Closed(ConnectionEnd::HandshakeFailed),
                ConnectionAction::Finish(ConnectionEnd::HandshakeFailed),
            ),
            (ConnectionState::Handshaking, ConnectionEvent::HandshakeTimedOut) => (
                ConnectionState::Closed(ConnectionEnd::HandshakeTimedOut),
                ConnectionAction::Finish(ConnectionEnd::HandshakeTimedOut),
            ),
            (ConnectionState::Negotiating, ConnectionEvent::Http3Ready) => (
                ConnectionState::AwaitingRequest,
                ConnectionAction::AcceptRequest,
            ),
            (ConnectionState::Negotiating, ConnectionEvent::Http3Failed) => (
                ConnectionState::Closed(ConnectionEnd::Http3Failed),
                ConnectionAction::Finish(ConnectionEnd::Http3Failed),
            ),
            (ConnectionState::AwaitingRequest, ConnectionEvent::Request(kind)) => match kind {
                RequestKind::Connect => (ConnectionState::Upgrading, ConnectionAction::Upgrade),
                RequestKind::Other => (
                    ConnectionState::AwaitingRequest,
                    ConnectionAction::SkipRequest,
                ),
            },
            (ConnectionState::AwaitingRequest, ConnectionEvent::PeerClosed) => (
                ConnectionState::Closed(ConnectionEnd::PeerClosed),
                ConnectionAction::Finish(ConnectionEnd::PeerClosed),
            ),
            (ConnectionState::AwaitingRequest, ConnectionEvent::RequestFailed) => (
                ConnectionState::Closed(ConnectionEnd::RequestFailed),
                ConnectionAction::Finish(ConnectionEnd::RequestFailed),
            ),
            (ConnectionState::Upgrading, ConnectionEvent::Upgraded(id)) => (
                ConnectionState::InSession(id),
                ConnectionAction::RunSession(id),
            ),
            (ConnectionState::Upgrading, ConnectionEvent::UpgradeFailed) => (
                ConnectionState::Closed(ConnectionEnd::UpgradeFailed),
                ConnectionAction::Finish(ConnectionEnd::UpgradeFailed),
            ),
            (ConnectionState::InSession(_), ConnectionEvent::SessionEnded(end)) => (
                ConnectionState::Closed(ConnectionEnd::Session(end)),
                ConnectionAction::Finish(ConnectionEnd::Session(end)),
            ),
            (state, _) => (state, ConnectionAction::Ignore),
        };
        self.state = next;
        action
    }
}

/// A task that is over stays over and asks for nothing more, whatever is
/// reported to it.
pub proof fn lemma_closed_is_final(end: ConnectionEnd, events: Seq<ConnectionEvent>)
    ensures
        connection_run(ConnectionState::Closed(end), events) == ConnectionState::Closed(end),
        connection_actions(ConnectionState::Closed(end), events).len() == events.len(),
        forall|i: int|
            0 <= i < events.len() ==> connection_actions(ConnectionState::Closed(end), events)[i]
                == ConnectionAction::Ignore,
    decreases events.len(),
{
    if events.len() > 0 {
        lemma_closed_is_final(end, events.skip(1));
    }
}

/// A connection whose handshake fails or times out never reaches the HTTP/3
/// side: its task ends at once, and nothing reported later has it set up
/// HTTP/3, take a request, upgrade or run a session.
pub proof fn lemma_failed_handshake_never_negotiates(
    failure: ConnectionEvent,
    later: Seq<ConnectionEvent>,
)
    requires
        failure == ConnectionEvent::HandshakeFailed || failure
            == ConnectionEvent::HandshakeTimedOut,
    ensures
        connection_run(ConnectionState::Handshaking, seq![failure] + later) is Closed,
        forall|i: int|
            0 <= i < connection_actions(ConnectionState::Handshaking, seq![failure] + later).len()
                ==> !is_http3_work(
                #[trigger] connection_actions(ConnectionState::Handshaking, seq![failure] + later)[i],
            ),
{
    let events = seq![failure] + later;
    let (next, first) = connection_transition(ConnectionState::Handshaking, failure);
    assert(events[0] == failure);
    assert(events.skip(1) =~= later);
    lemma_closed_is_final(next->Closed_0, later);
    let actions = connection_actions(ConnectionState::Handshaking, events);
    assert(actions =~= seq![first] + connection_actions(next, later));
    assert forall|i: int| 0 <= i < actions.len() implies !is_http3_work(#[trigger] actions[i]) by {
        if i > 0 {
            assert(actions[i] == connection_actions(next, later)[i - 1]);
        }
    }
}

/// While a session runs, and once the task is over, no session is started,
/// whatever is reported.
pub proof fn lemma_no_session_after_hand_over(state: ConnectionState, events: Seq<ConnectionEvent>)
    requires
        state is InSession || state is Closed,
    ensures
        sessions_started(connection_actions(state, events)) == 0,
    decreases events.len(),
{
    if events.len() > 0 {
        let (next, action) = connection_transition(state, events[0]);
        lemma_no_session_after_hand_over(next, events.skip(1));
        let actions = connection_actions(state, events);
        assert(actions[0] == action);
        assert(actions.skip(1) =~= connection_actions(next, events.skip(1)));
    }
}

/// A connection carries at most one session: over any run of events, from
/// any state, at most one session is started, and at no time is more than
/// one live.
pub proof fn lemma_at_most_one_session(state: ConnectionState, events: Seq<ConnectionEvent>)
    ensures
        sessions_started(connection_actions(state, events)) <= 1,
        live_sessions(connection_run(state, events)) <= fixed_http3().max_webtransport_sessions,
    decreases events.len(),
{
    if events.len() > 0 {
        let (next, action) = connection_transition(state, events[0]);
        let actions = connection_actions(state, events);
        assert(actions[0] == action);
        assert(actions.skip(1) =~= connection_actions(next, events.skip(1)));
        if action is RunSession {
            lemma_no_session_after_hand_over(next, events.skip(1));
        } else {
            lemma_at_most_one_session(next, events.skip(1));
        }
    }
}

} // verus!
