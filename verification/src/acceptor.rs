//! The accept loop of the endpoint.
//!
//! The loop waits for whichever comes first, the next connection attempt or
//! the shutdown signal. An attempt is inspected once its handshake data can
//! be had: with TLS handshake data it gets a task of its own, without it the
//! attempt is dropped and the loop goes on. The shutdown signal ends the
//! loop. Nothing that happens to one attempt, or inside one connection's
//! task, reaches the loop.

use vstd::prelude::*;

verus! {

/// Where the accept loop stands.
#[derive(Clone, Copy, Debug, PartialEq, Eq, Structural)]
pub enum AcceptorState {
    /// Waiting for a connection attempt or the shutdown signal.
    Accepting,
    /// An attempt came in; its handshake data is awaited.
    Inspecting,
    /// The loop is over; no attempt is accepted any more.
    Stopped,
}

/// What the handshake of a connection attempt gave.
#[derive(Clone, Copy, Debug, PartialEq, Eq, Structural)]
pub enum HandshakeData {
    /// Handshake data of the expected TLS kind.
    Tls,
    /// Handshake data of some other kind.
    Foreign,
    /// No handshake data: the handshake failed before it gave any.
    Unavailable,
}

/// Why a connection attempt was dropped.
#[derive(Clone, Copy, Debug, PartialEq, Eq, Structural)]
pub enum AbandonReason {
    /// The handshake data could not be retrieved.
    NoHandshakeData,
    /// The handshake data is not of the expected TLS kind.
    UnexpectedCrypto,
}

/// What happened, as the driver of the accept loop reports it.
#[derive(Clone, Copy, Debug, PartialEq, Eq, Structural)]
pub enum AcceptorEvent {
    /// A connection attempt came in.
    Incoming,
    /// The wait for the attempt's handshake data is over.
    Handshake(HandshakeData),
    /// The shutdown signal was raised.
    Shutdown,
}

/// What the driver of the accept loop does next.
#[derive(Clone, Copy, Debug, PartialEq, Eq, Structural)]
pub enum AcceptorAction {
    /// Wait for the attempt's handshake data.
    Inspect,
    /// Start a task of its own for the connection, then wait for the next
    /// attempt or the shutdown signal.
    Spawn,
    /// Drop the attempt and report why, then wait for the next attempt or
    /// the shutdown signal.
    Abandon(AbandonReason),
    /// Leave the loop.
    Stop,
    /// The event does not apply to the state; nothing is to be done.
    Ignore,
}

/// The accept loop's transition: the state and the action that follow
/// `event` in `state`.
pub open spec fn acceptor_transition(state: AcceptorState, event: AcceptorEvent) -> (
    AcceptorState,
    AcceptorAction,
) {
    match (state, event) {
        (AcceptorState::Accepting, AcceptorEvent::Incoming) => (
            AcceptorState::Inspecting,
            AcceptorAction::Inspect,
        ),
        (AcceptorState::Accepting, AcceptorEvent::Shutdown) => (
            AcceptorState::Stopped,
            AcceptorAction::Stop,
        ),
        (AcceptorState::Inspecting, AcceptorEvent::Handshake(HandshakeData::Tls)) => (
            AcceptorState::Accepting,
            AcceptorAction::Spawn,
        ),
        (AcceptorState::Inspecting, AcceptorEvent::Handshake(HandshakeData::Foreign)) => (
            AcceptorState::Accepting,
            AcceptorAction::Abandon(AbandonReason::UnexpectedCrypto),
        ),
        (AcceptorState::Inspecting, AcceptorEvent::Handshake(HandshakeData::Unavailable)) => (
            AcceptorState::Accepting,
            AcceptorAction::Abandon(AbandonReason::NoHandshakeData),
        ),
        _ => (state, AcceptorAction::Ignore),
    }
}

/// The state after a run of events, starting in `state`.
pub open spec fn acceptor_run(state: AcceptorState, events: Seq<AcceptorEvent>) -> AcceptorState
    decreases events.len(),
{
    if events.len() == 0 {
        state
    } else {
        acceptor_run(acceptor_transition(state, events[0]).0, events.skip(1))
    }
}

/// The number of connection tasks started over a run of events, starting in
/// `state`.
pub open spec fn spawned(state: AcceptorState, events: Seq<AcceptorEvent>) -> nat
    decreases events.len(),
{
    if events.len() == 0 {
        0
    } else {
        let (next, action) = acceptor_transition(state, events[0]);
        let here: nat = if action == AcceptorAction::Spawn {
            1
        } else {
            0
        };
        here + spawned(next, events.skip(1))
    }
}

/// The accept loop of one endpoint.
#[derive(Debug, PartialEq, Eq)]
pub struct Acceptor {
    state: AcceptorState,
}

impl View for Acceptor {
    type V = AcceptorState;

    closed spec fn view(&self) -> AcceptorState {
        self.state
    }
}

impl Acceptor {
    /// The accept loop of an endpoint that was just bound. Its driver starts
    /// by waiting for the first attempt or the shutdown signal.
    pub fn new() -> (acceptor: Acceptor)
        ensures
            acceptor@ == AcceptorState::Accepting,
    {
        Acceptor { state: AcceptorState::Accepting }
    }

    /// Where the loop stands.
    pub fn state(&self) -> (state: AcceptorState)
        ensures
            state == self@,
    {
        self.state
    }

    /// Takes `event` in and tells the driver what to do next.
    pub fn step(&mut self, event: AcceptorEvent) -> (action: AcceptorAction)
        ensures
            (final(self)@, action) == acceptor_transition(old(self)@, event),
    {
        match (self.state, event) {
            (AcceptorState::Accepting, AcceptorEvent::Incoming) => {
                self.state = AcceptorState::Inspecting;
                AcceptorAction::Inspect
            },
            (AcceptorState::Accepting, AcceptorEvent::Shutdown) => {
                self.state = AcceptorState::Stopped;
                AcceptorAction::Stop
            },
            (AcceptorState::Inspecting, AcceptorEvent::Handshake(data)) => {
                self.state = AcceptorState::Accepting;
                match data {
                    HandshakeData::Tls => AcceptorAction::Spawn,
                    HandshakeData::Foreign => AcceptorAction::Abandon(
                        AbandonReason::UnexpectedCrypto,
                    ),
                    HandshakeData::Unavailable => AcceptorAction::Abandon(
                        AbandonReason::NoHandshakeData,
                    ),
                }
            },
            _ => AcceptorAction::Ignore,
        }
    }
}

/// Once the accept loop has stopped it stays stopped and starts no task,
/// whatever comes in.
pub proof fn lemma_stopped_accepts_nothing(events: Seq<AcceptorEvent>)
    ensures
        acceptor_run(AcceptorState::Stopped, events) == AcceptorState::Stopped,
        spawned(AcceptorState::Stopped, events) == 0,
    decreases events.len(),
{
    if events.len() > 0 {
        lemma_stopped_accepts_nothing(events.skip(1));
    }
}

/// The shutdown signal, observed while the loop waits, stops the loop for
/// good: no later event starts a task.
pub proof fn lemma_shutdown_stops_accepting(later: Seq<AcceptorEvent>)
    ensures
        acceptor_transition(AcceptorState::Accepting, AcceptorEvent::Shutdown) == (
            AcceptorState::Stopped,
            AcceptorAction::Stop,
        ),
        spawned(AcceptorState::Accepting, seq![AcceptorEvent::Shutdown] + later) == 0,
        acceptor_run(AcceptorState::Accepting, seq![AcceptorEvent::Shutdown] + later)
            == AcceptorState::Stopped,
{
    let events = seq![AcceptorEvent::Shutdown] + later;
    assert(events[0] == AcceptorEvent::Shutdown);
    assert(events.skip(1) =~= later);
    lemma_stopped_accepts_nothing(later);
}

/// A connection attempt that is dropped leaves the loop where an attempt
/// that is taken leaves it: waiting for the next one.
pub proof fn lemma_attempts_do_not_reach_the_loop(data: HandshakeData)
    ensures
        acceptor_transition(AcceptorState::Inspecting, AcceptorEvent::Handshake(data)).0
            == AcceptorState::Accepting,
        (acceptor_transition(AcceptorState::Inspecting, AcceptorEvent::Handshake(data)).1
            == AcceptorAction::Spawn) <==> data == HandshakeData::Tls,
{
}

} // verus!
