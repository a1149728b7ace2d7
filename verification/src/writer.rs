//! The writer of a session's outbound unidirectional stream.
//!
//! The writer takes payloads off the session's queue one at a time and writes
//! each to the stream as it is, waiting for the write to complete before it
//! takes the next. It ends when a write fails or when the queue is closed.

use crate::payload::payload_bytes;
use bytes::Bytes;
use vstd::prelude::*;

verus! {

/// Why a writer ended.
#[derive(Clone, Copy, Debug, PartialEq, Eq, Structural)]
pub enum WriterExit {
    /// Every producer is gone and the queue is empty.
    QueueClosed,
    /// A write to the stream failed; what was still queued is given up.
    WriteFailed,
}

/// Where a writer stands.
#[derive(Clone, Copy, Debug, PartialEq, Eq, Structural)]
pub enum WriterState {
    /// Waiting for the next payload from the queue.
    Receiving,
    /// A write to the stream is in flight.
    Writing,
    /// The writer has ended and the stream is closed.
    Finished(WriterExit),
}

/// What happened, as the driver of a writer reports it.
#[derive(Debug, PartialEq, Eq)]
pub enum WriterEvent {
    /// The queue handed over its oldest payload.
    Received(Bytes),
    /// The queue is empty and has no producer any more.
    QueueClosed,
    /// The write in flight is complete.
    WriteCompleted,
    /// The write in flight failed.
    WriteFailed,
}

/// What the driver of a writer does next.
#[derive(Debug, PartialEq, Eq)]
pub enum WriterAction {
    /// Wait for the next payload from the queue.
    Receive,
    /// Write these bytes to the stream and wait for the write to complete.
    Write(Bytes),
    /// Finish the stream and end.
    CloseStream,
    /// Report the failed write and end, leaving the queue as it is.
    Abandon,
    /// The event does not apply to the state; nothing is to be done.
    Ignore,
}

/// A writer event as a mathematical value.
pub enum WriterEventView {
    Received(Seq<u8>),
    QueueClosed,
    WriteCompleted,
    WriteFailed,
}

/// A writer action as a mathematical value.
pub enum WriterActionView {
    Receive,
    Write(Seq<u8>),
    CloseStream,
    Abandon,
    Ignore,
}

impl View for WriterEvent {
    type V = WriterEventView;

    open spec fn view(&self) -> WriterEventView {
        match self {
            WriterEvent::Received(payload) => WriterEventView::Received(payload_bytes(*payload)),
            WriterEvent::QueueClosed => WriterEventView::QueueClosed,
            WriterEvent::WriteCompleted => WriterEventView::WriteCompleted,
            WriterEvent::WriteFailed => WriterEventView::WriteFailed,
        }
    }
}

impl View for WriterAction {
    type V = WriterActionView;

    open spec fn view(&self) -> WriterActionView {
        match self {
            WriterAction::Receive => WriterActionView::Receive,
            WriterAction::Write(payload) => WriterActionView::Write(payload_bytes(*payload)),
            WriterAction::CloseStream => WriterActionView::CloseStream,
            WriterAction::Abandon => WriterActionView::Abandon,
            WriterAction::Ignore => WriterActionView::Ignore,
        }
    }
}

/// The writer's transition: the state and the action that follow `event` in
/// `state`.
pub open spec fn writer_transition(state: WriterState, event: WriterEventView) -> (
    WriterState,
    WriterActionView,
) {
    match (state, event) {
        (WriterState::Receiving, WriterEventView::Received(payload)) => (
            WriterState::Writing,
            WriterActionView::Write(payload),
        ),
        (WriterState::Receiving, WriterEventView::QueueClosed) => (
            WriterState::Finished(WriterExit::QueueClosed),
            WriterActionView::CloseStream,
        ),
        (WriterState::Writing, WriterEventView::WriteCompleted) => (
            WriterState::Receiving,
            WriterActionView::Receive,
        ),
        (WriterState::Writing, WriterEventView::WriteFailed) => (
            WriterState::Finished(WriterExit::WriteFailed),
            WriterActionView::Abandon,
        ),
        _ => (state, WriterActionView::Ignore),
    }
}

/// The writer of one outbound stream.
#[derive(Debug, PartialEq, Eq)]
pub struct StreamWriter {
    state: WriterState,
}

impl View for StreamWriter {
    type V = WriterState;

    closed spec fn view(&self) -> WriterState {
        self.state
    }
}

impl StreamWriter {
    /// A writer for a stream that was just opened. Its driver starts by
    /// waiting for the first payload.
    pub fn new() -> (writer: StreamWriter)
        ensures
            writer@ == WriterState::Receiving,
    {
        StreamWriter { state: WriterState::Receiving }
    }

    /// Where the writer stands.
    pub fn state(&self) -> (state: WriterState)
        ensures
            state == self@,
    {
        self.state
    }

    /// Whether the writer has ended.
    pub fn is_finished(&self) -> (finished: bool)
        ensures
            finished == (self@ is Finished),
    {
        match self.state {
            WriterState::Finished(_) => true,
            _ => false,
        }
    }

    /// Takes `event` in and tells the driver what to do next.
    pub fn step(&mut self, event: WriterEvent) -> (action: WriterAction)
        ensures
            (final(self)@, action@) == writer_transition(old(self)@, event@),
    {
        match (self.state, event) {
            (WriterState::Receiving, WriterEvent::Received(payload)) => {
                self.state = WriterState::Writing;
                WriterAction::Write(payload)
            },
            (WriterState::Receiving, WriterEvent::QueueClosed) => {
                self.state = WriterState::Finished(WriterExit::QueueClosed);
                WriterAction::CloseStream
            },
            (WriterState::Writing, WriterEvent::WriteCompleted) => {
                self.state = WriterState::Receiving;
                WriterAction::Receive
            },
            (WriterState::Writing, WriterEvent::WriteFailed) => {
                self.state = WriterState::Finished(WriterExit::WriteFailed);
                WriterAction::Abandon
            },
            _ => WriterAction::Ignore,
        }
    }
}

} // verus!
