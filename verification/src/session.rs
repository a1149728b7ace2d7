//! The echo loop of one WebTransport session.
//!
//! A session is `Active` from the moment it is upgraded. It first has its
//! outbound stream opened, then waits for datagrams, for the liveness tick
//! and for the shutdown signal. Every datagram is handed to the stream's
//! queue and then sent back as a datagram, with the bytes that arrived. The
//! shutdown signal, or a queue that no longer takes payloads, moves the
//! session to `Draining`: the producer side of the queue is released and the
//! writer flushes what is left. When the writer has ended the session is
//! `Closed`.

use crate::payload::{payload_bytes, share};
use bytes::Bytes;
use vstd::prelude::*;

verus! {

/// Seconds between two liveness reports of a session.
pub const LIVENESS_INTERVAL_SECS: u64 = 10;

/// The state of a session.
#[derive(Clone, Copy, Debug, PartialEq, Eq, Structural)]
pub enum SessionState {
    /// The echo loop runs.
    Active,
    /// The echo loop is over; the writer flushes what is queued.
    Draining,
    /// The writer has ended and the outbound stream is closed.
    Closed,
}

/// Why a session left `Active`.
#[derive(Clone, Copy, Debug, PartialEq, Eq, Structural)]
pub enum SessionEnd {
    /// The shutdown signal was observed.
    Shutdown,
    /// The outbound stream could not be opened.
    StreamUnavailable,
    /// The stream's queue no longer took a payload: its writer is gone.
    WriterGone,
}

/// What happened, as the driver of a session reports it.
#[derive(Debug, PartialEq, Eq)]
pub enum SessionEvent {
    /// The outbound stream is open and its writer runs.
    StreamOpened,
    /// The outbound stream could not be opened.
    StreamFailed,
    /// A datagram arrived for this session.
    Datagram(Bytes),
    /// The wait for a datagram ended without one.
    NoDatagram,
    /// The liveness interval has passed.
    Tick,
    /// The shutdown signal was raised.
    Shutdown,
    /// The queue took the payload.
    Enqueued,
    /// The queue did not take the payload: it has no consumer any more.
    EnqueueFailed,
    /// The datagram was sent.
    DatagramSent,
    /// The datagram could not be sent.
    DatagramFailed,
    /// The writer has ended.
    WriterExited,
}

/// What the driver of a session does next.
#[derive(Debug, PartialEq, Eq)]
pub enum SessionAction {
    /// Wait for whichever comes first: a datagram, the tick, the shutdown
    /// signal.
    AwaitEvent,
    /// Hand these bytes to the queue of the outbound stream.
    Enqueue(Bytes),
    /// Send these bytes back as a datagram on this session.
    SendDatagram(Bytes),
    /// Report that the session with this id is still connected, then wait
    /// for the next event.
    ReportLiveness(u64),
    /// Report that a datagram could not be sent, then wait for the next
    /// event.
    ReportSendFailure,
    /// Release the producer side of the queue and wait for the writer to
    /// end.
    ReleaseProducer,
    /// The session is over; this is why it left `Active`.
    Finish(SessionEnd),
    /// The event does not apply to the state; nothing is to be done.
    Ignore,
}

/// The steps of a session, finer than its three states.
#[derive(Debug, PartialEq, Eq)]
pub enum SessionPhase {
    /// Active: the outbound stream is being opened.
    Opening,
    /// Active: waiting for a datagram, the tick or the shutdown signal.
    Waiting,
    /// Active: the payload is on its way into the queue; its datagram echo
    /// is still to come.
    Queueing(Bytes),
    /// Active: the datagram echo is on its way.
    Replying,
    /// Draining.
    Draining(SessionEnd),
    /// Closed.
    Closed(SessionEnd),
}

/// A session event as a mathematical value.
pub enum SessionEventView {
    StreamOpened,
    StreamFailed,
    Datagram(Seq<u8>),
    NoDatagram,
    Tick,
    Shutdown,
    Enqueued,
    EnqueueFailed,
    DatagramSent,
    DatagramFailed,
    WriterExited,
}

/// A session action as a mathematical value.
pub enum SessionActionView {
    AwaitEvent,
    Enqueue(Seq<u8>),
    SendDatagram(Seq<u8>),
    ReportLiveness(u64),
    ReportSendFailure,
    ReleaseProducer,
    Finish(SessionEnd),
    Ignore,
}

/// A session phase as a mathematical value.
pub enum SessionPhaseView {
    Opening,
    Waiting,
    Queueing(Seq<u8>),
    Replying,
    Draining(SessionEnd),
    Closed(SessionEnd),
}

/// A session as a mathematical value.
pub struct SessionView {
    pub id: u64,
    pub phase: SessionPhaseView,
}

impl View for SessionEvent {
    type V = SessionEventView;

    open spec fn view(&self) -> SessionEventView {
        match self {
            SessionEvent::StreamOpened => SessionEventView::StreamOpened,
            SessionEvent::StreamFailed => SessionEventView::StreamFailed,
            SessionEvent::Datagram(payload) => SessionEventView::Datagram(payload_bytes(*payload)),
            SessionEvent::NoDatagram => SessionEventView::NoDatagram,
            SessionEvent::Tick => SessionEventView::Tick,
            SessionEvent::Shutdown => SessionEventView::Shutdown,
            SessionEvent::Enqueued => SessionEventView::Enqueued,
            SessionEvent::EnqueueFailed => SessionEventView::EnqueueFailed,
            SessionEvent::DatagramSent => SessionEventView::DatagramSent,
            SessionEvent::DatagramFailed => SessionEventView::DatagramFailed,
            SessionEvent::WriterExited => SessionEventView::WriterExited,
        }
    }
}

impl View for SessionAction {
    type V = SessionActionView;

    open spec fn view(&self) -> SessionActionView {
        match self {
            SessionAction::AwaitEvent => SessionActionView::AwaitEvent,
            SessionAction::Enqueue(payload) => SessionActionView::Enqueue(payload_bytes(*payload)),
            SessionAction::SendDatagram(payload) => SessionActionView::SendDatagram(
                payload_bytes(*payload),
            ),
            SessionAction::ReportLiveness(id) => SessionActionView::ReportLiveness(*id),
            SessionAction::ReportSendFailure => SessionActionView::ReportSendFailure,
            SessionAction::ReleaseProducer => SessionActionView::ReleaseProducer,
            SessionAction::Finish(end) => SessionActionView::Finish(*end),
            SessionAction::Ignore => SessionActionView::Ignore,
        }
    }
}

impl View for SessionPhase {
    type V = SessionPhaseView;

    open spec fn view(&self) -> SessionPhaseView {
        match self {
            SessionPhase::Opening => SessionPhaseView::Opening,
            SessionPhase::Waiting => SessionPhaseView::Waiting,
            SessionPhase::Queueing(payload) => SessionPhaseView::Queueing(payload_bytes(*payload)),
            SessionPhase::Replying => SessionPhaseView::Replying,
            SessionPhase::Draining(end) => SessionPhaseView::Draining(*end),
            SessionPhase::Closed(end) => SessionPhaseView::Closed(*end),
        }
    }
}

/// The state that a phase belongs to.
pub open spec fn state_of(phase: SessionPhaseView) -> SessionState {
    match phase {
        SessionPhaseView::Draining(_) => SessionState::Draining,
        SessionPhaseView::Closed(_) => SessionState::Closed,
        _ => SessionState::Active,
    }
}

/// The session's transition: the session and the action that follow `event`
/// in `session`.
pub open spec fn session_transition(session: SessionView, event: SessionEventView) -> (
    SessionView,
    SessionActionView,
) {
    let (phase, action) = match (session.phase, event) {
        (SessionPhaseView::Opening, SessionEventView::StreamOpened) => (
            SessionPhaseView::Waiting,
            SessionActionView::AwaitEvent,
        ),
        (SessionPhaseView::Opening, SessionEventView::StreamFailed) => (
            SessionPhaseView::Closed(SessionEnd::StreamUnavailable),
            SessionActionView::Finish(SessionEnd::StreamUnavailable),
        ),
        (SessionPhaseView::Waiting, SessionEventView::Datagram(payload)) => (
            SessionPhaseView::Queueing(payload),
            SessionActionView::Enqueue(payload),
        ),
        (SessionPhaseView::Waiting, SessionEventView::NoDatagram) => (
            SessionPhaseView::Waiting,
            SessionActionView::AwaitEvent,
        ),
        (SessionPhaseView::Waiting, SessionEventView::Tick) => (
            SessionPhaseView::Waiting,
            SessionActionView::ReportLiveness(session.id),
        ),
        (SessionPhaseView::Waiting, SessionEventView::Shutdown) => (
            SessionPhaseView::Draining(SessionEnd::Shutdown),
            SessionActionView::ReleaseProducer,
        ),
        (SessionPhaseView::Queueing(payload), SessionEventView::Enqueued) => (
            SessionPhaseView::Replying,
            SessionActionView::SendDatagram(payload),
        ),
        (SessionPhaseView::Queueing(_), SessionEventView::EnqueueFailed) => (
            SessionPhaseView::Draining(SessionEnd::WriterGone),
            SessionActionView::ReleaseProducer,
        ),
        (SessionPhaseView::Replying, SessionEventView::DatagramSent) => (
            SessionPhaseView::Waiting,
            SessionActionView::AwaitEvent,
        ),
        (SessionPhaseView::Replying, SessionEventView::DatagramFailed) => (
            SessionPhaseView::Waiting,
            SessionActionView::ReportSendFailure,
        ),
        (SessionPhaseView::Draining(end), SessionEventView::WriterExited) => (
            SessionPhaseView::Closed(end),
            SessionActionView::Finish(end),
        ),
        _ => (session.phase, SessionActionView::Ignore),
    };
    (SessionView { id: session.id, phase }, action)
}

/// The echo loop of one session.
#[derive(Debug, PartialEq, Eq)]
pub struct Session {
    id: u64,
    phase: SessionPhase,
}

impl View for Session {
    type V = SessionView;

    closed spec fn view(&self) -> SessionView {
        SessionView { id: self.id, phase: self.phase@ }
    }
}

impl Session {
    /// The session with this id, just upgraded. Its driver starts by opening
    /// the outbound stream and spawning the stream's writer.
    pub fn new(id: u64) -> (session: Session)
        ensures
            session@ == (SessionView { id, phase: SessionPhaseView::Opening }),
    {
        Session { id, phase: SessionPhase::Opening }
    }

    /// The id of the session.
    pub fn id(&self) -> (id: u64)
        ensures
            id == self@.id,
    {
        self.id
    }

    /// The state of the session.
    pub fn state(&self) -> (state: SessionState)
        ensures
            state == state_of(self@.phase),
    {
        match self.phase {
            SessionPhase::Draining(_) => SessionState::Draining,
            SessionPhase::Closed(_) => SessionState::Closed,
            _ => SessionState::Active,
        }
    }

    /// Takes `event` in and tells the driver what to do next.
    pub fn step(&mut self, event: SessionEvent) -> (action: SessionAction)
        ensures
            (final(self)@, action@) == session_transition(old(self)@, event@),
    {
        let mut phase = SessionPhase::Waiting;
        core::mem::swap(&mut self.phase, &mut phase);
        match (phase, event) {
            (SessionPhase::Opening, SessionEvent::StreamOpened) => SessionAction::AwaitEvent,
            (SessionPhase::Opening, SessionEvent::StreamFailed) => {
                self.phase = SessionPhase::Closed(SessionEnd::StreamUnavailable);
                SessionAction::Finish(SessionEnd::StreamUnavailable)
            },
            (SessionPhase::Waiting, SessionEvent::Datagram(payload)) => {
                let copy = share(&payload);
                self.phase = SessionPhase::Queueing(payload);
                SessionAction::Enqueue(copy)
            },
            (SessionPhase::Waiting, SessionEvent::NoDatagram) => SessionAction::AwaitEvent,
            (SessionPhase::Waiting, SessionEvent::Tick) => SessionAction::ReportLiveness(self.id),
            (SessionPhase::Waiting, SessionEvent::Shutdown) => {
                self.phase = SessionPhase::Draining(SessionEnd::Shutdown);
                SessionAction::ReleaseProducer
            },
            (SessionPhase::Queueing(payload), SessionEvent::Enqueued) => {
                self.phase = SessionPhase::Replying;
                SessionAction::SendDatagram(payload)
            },
            (SessionPhase::Queueing(_), SessionEvent::EnqueueFailed) => {
                self.phase = SessionPhase::Draining(SessionEnd::WriterGone);
                SessionAction::ReleaseProducer
            },
            (SessionPhase::Replying, SessionEvent::DatagramSent) => SessionAction::AwaitEvent,
            (SessionPhase::Replying, SessionEvent::DatagramFailed) => {
                SessionAction::ReportSendFailure
            },
            (SessionPhase::Draining(end), SessionEvent::WriterExited) => {
                self.phase = SessionPhase::Closed(end);
                SessionAction::Finish(end)
            },
            (phase, _) => {
                self.phase = phase;
                SessionAction::Ignore
            },
        }
    }
}

} // verus!
