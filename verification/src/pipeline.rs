//! A session, its queue and its writer, taken together.
//!
//! The session loop and the writer run as two tasks with an unbounded
//! first-in, first-out queue between them: the loop is the only producer,
//! the writer the only consumer. This module describes the three together as
//! one mathematical object, built from the transitions of the two machines,
//! and proves what holds of every run: payloads reach the stream as they
//! arrived and in the order in which they arrived, every payload the queue
//! took was also sent back as a datagram, and after the shutdown signal the
//! writer flushes what is queued and the session closes within a number of
//! steps that the length of the queue bounds.

use crate::session::{
    session_transition, state_of, SessionActionView, SessionEnd, SessionEventView,
    SessionPhaseView, SessionState, SessionView,
};
use crate::writer::{writer_transition, WriterEventView, WriterExit, WriterState};
use vstd::prelude::*;

verus! {

/// A session with its queue and its writer.
pub struct Pipeline {
    /// The session loop.
    pub session: SessionView,
    /// The writer.
    pub writer: WriterState,
    /// Whether the session loop still holds the producer side of the queue.
    pub producer: bool,
    /// The payloads in the queue, oldest first.
    pub queue: Seq<Seq<u8>>,
    /// The payload whose write is in flight.
    pub in_flight: Option<Seq<u8>>,
    /// The payloads of the datagrams the loop took in, in the order of
    /// arrival.
    pub arrivals: Seq<Seq<u8>>,
    /// The payloads the queue took, in the order in which it took them.
    pub queued: Seq<Seq<u8>>,
    /// The payloads sent back as datagrams, in the order of sending.
    pub replies: Seq<Seq<u8>>,
    /// The payloads written to the stream, in the order of writing.
    pub written: Seq<Seq<u8>>,
}

/// What moves a pipeline on.
pub enum Stimulus {
    /// The world outside reports this to the session loop.
    Session(SessionEventView),
    /// The writer looks at the queue.
    WriterPoll,
    /// The write in flight ends, well (`true`) or not.
    WriteDone(bool),
    /// The end of the writer is reported to the session loop.
    WriterJoined,
}

/// Whether an event comes from outside the pipeline. The queue's answers
/// and the end of the writer come from within.
pub open spec fn from_outside(event: SessionEventView) -> bool {
    !(event is Enqueued || event is EnqueueFailed || event is WriterExited)
}

/// The pipeline of the session `id` once its outbound stream is open: the
/// loop waits, the writer waits, nothing has arrived.
pub open spec fn opened(id: u64) -> Pipeline {
    Pipeline {
        session: SessionView { id, phase: SessionPhaseView::Waiting },
        writer: WriterState::Receiving,
        producer: true,
        queue: Seq::empty(),
        in_flight: None,
        arrivals: Seq::empty(),
        queued: Seq::empty(),
        replies: Seq::empty(),
        written: Seq::empty(),
    }
}

/// The payload in flight, as a run of none or one.
pub open spec fn flying(p: Pipeline) -> Seq<Seq<u8>> {
    match p.in_flight {
        Some(payload) => seq![payload],
        None => Seq::empty(),
    }
}

/// The pipeline after the session loop has taken `event` in and its action
/// has been carried out. A payload to enqueue goes to the back of the queue
/// while the writer lives, and the loop then goes on to the datagram echo;
/// with the writer gone the queue refuses it.
pub open spec fn deliver(p: Pipeline, event: SessionEventView) -> Pipeline {
    let (session, action) = session_transition(p.session, event);
    match action {
        SessionActionView::Enqueue(payload) => {
            let arrivals = p.arrivals.push(payload);
            if p.writer is Finished {
                let (after, _) = session_transition(session, SessionEventView::EnqueueFailed);
                Pipeline { session: after, producer: false, arrivals, ..p }
            } else {
                let (after, echo) = session_transition(session, SessionEventView::Enqueued);
                Pipeline {
                    session: after,
                    queue: p.queue.push(payload),
                    queued: p.queued.push(payload),
                    replies: match echo {
                        SessionActionView::SendDatagram(reply) => p.replies.push(reply),
                        _ => p.replies,
                    },
                    arrivals,
                    ..p
                }
            }
        },
        SessionActionView::ReleaseProducer => Pipeline { session, producer: false, ..p },
        _ => Pipeline { session, ..p },
    }
}

/// The pipeline after the writer has looked at the queue: it takes the
/// oldest payload, or ends where the queue is empty and has no producer, or
/// goes on waiting.
pub open spec fn poll(p: Pipeline) -> Pipeline {
    if p.writer != WriterState::Receiving {
        p
    } else if p.queue.len() > 0 {
        let (writer, _) = writer_transition(p.writer, WriterEventView::Received(p.queue[0]));
        Pipeline { writer, queue: p.queue.skip(1), in_flight: Some(p.queue[0]), ..p }
    } else if !p.producer {
        let (writer, _) = writer_transition(p.writer, WriterEventView::QueueClosed);
        Pipeline { writer, ..p }
    } else {
        p
    }
}

/// The pipeline after the write in flight has ended.
pub open spec fn write_done(p: Pipeline, ok: bool) -> Pipeline {
    if p.writer != WriterState::Writing {
        p
    } else if ok {
        let (writer, _) = writer_transition(p.writer, WriterEventView::WriteCompleted);
        Pipeline { writer, written: p.written + flying(p), in_flight: None, ..p }
    } else {
        let (writer, _) = writer_transition(p.writer, WriterEventView::WriteFailed);
        Pipeline { writer, in_flight: None, ..p }
    }
}

/// The pipeline after one stimulus.
pub open spec fn pipeline_step(p: Pipeline, stimulus: Stimulus) -> Pipeline {
    match stimulus {
        Stimulus::Session(event) => if from_outside(event) {
            deliver(p, event)
        } else {
            p
        },
        Stimulus::WriterPoll => poll(p),
        Stimulus::WriteDone(ok) => write_done(p, ok),
        Stimulus::WriterJoined => if p.writer is Finished {
            deliver(p, SessionEventView::WriterExited)
        } else {
            p
        },
    }
}

/// The pipeline after a run of stimuli.
pub open spec fn pipeline_run(p: Pipeline, stimuli: Seq<Stimulus>) -> Pipeline
    decreases stimuli.len(),
{
    if stimuli.len() == 0 {
        p
    } else {
        pipeline_run(pipeline_step(p, stimuli[0]), stimuli.skip(1))
    }
}

/// What holds of a pipeline at rest, between two stimuli.
pub open spec fn consistent(p: Pipeline) -> bool {
    &&& !(p.session.phase is Opening) && !(p.session.phase is Queueing)
    &&& p.producer == (state_of(p.session.phase) == SessionState::Active)
    &&& (p.in_flight is Some) == (p.writer == WriterState::Writing)
    &&& p.replies == p.queued
    &&& p.queued.is_prefix_of(p.arrivals)
    &&& p.arrivals.len() <= p.queued.len() + 1
    &&& p.written.is_prefix_of(p.queued)
    &&& p.writer != WriterState::Finished(WriterExit::WriteFailed) ==> p.written + flying(p)
        + p.queue == p.queued
    &&& p.writer == WriterState::Finished(WriterExit::QueueClosed) ==> !p.producer
        && p.queue.len() == 0
    &&& p.arrivals == p.queued || (p.writer is Finished && !p.producer)
    &&& p.session.phase is Closed ==> p.writer is Finished
}

/// The stimuli that flush a queue of `n` payloads: for each, the writer
/// takes it and its write completes.
pub open spec fn flush(n: nat) -> Seq<Stimulus>
    decreases n,
{
    if n == 0 {
        Seq::empty()
    } else {
        seq![Stimulus::WriterPoll, Stimulus::WriteDone(true)] + flush((n - 1) as nat)
    }
}

/// The stimuli that bring a session whose datagram echo is on its way back
/// to where it waits: the echo completes. A session that waits needs none.
pub open spec fn settle(replying: bool) -> Seq<Stimulus> {
    if replying {
        seq![Stimulus::Session(SessionEventView::DatagramSent)]
    } else {
        Seq::empty()
    }
}

/// The stimuli from the shutdown signal to the closed session, for a
/// pipeline with a live writer and `n` payloads in the queue: the datagram
/// echo on its way completes, the signal is observed, the write in flight
/// completes, the queue is flushed, the writer finds the queue closed, and
/// its end is reported.
pub open spec fn shutdown_schedule(replying: bool, writing: bool, n: nat) -> Seq<Stimulus> {
    settle(replying) + seq![Stimulus::Session(SessionEventView::Shutdown)] + (if writing {
        seq![Stimulus::WriteDone(true)]
    } else {
        Seq::empty()
    }) + flush(n) + seq![Stimulus::WriterPoll, Stimulus::WriterJoined]
}

proof fn lemma_step_keeps_consistent(p: Pipeline, stimulus: Stimulus)
    requires
        consistent(p),
    ensures
        consistent(pipeline_step(p, stimulus)),
{
    let q = pipeline_step(p, stimulus);
    match stimulus {
        Stimulus::Session(event) => {
            if from_outside(event) {
                let (session, action) = session_transition(p.session, event);
                match action {
                    SessionActionView::Enqueue(payload) => {
                        if !(p.writer is Finished) {
                            assert(q.written + flying(q) + q.queue =~= (p.written + flying(p)
                                + p.queue).push(payload));
                        }
                    },
                    _ => {},
                }
            }
        },
        Stimulus::WriterPoll => {
            if p.writer == WriterState::Receiving && p.queue.len() > 0 {
                assert(flying(p) =~= Seq::<Seq<u8>>::empty());
                assert(q.written + flying(q) + q.queue =~= p.written + flying(p) + p.queue);
            }
        },
        Stimulus::WriteDone(ok) => {
            if p.writer == WriterState::Writing {
                if ok {
                    assert(flying(q) =~= Seq::<Seq<u8>>::empty());
                    assert(q.written + flying(q) + q.queue =~= p.written + flying(p) + p.queue);
                    assert(q.written.is_prefix_of(q.queued)) by {
                        assert(q.queued =~= q.written + q.queue);
                    }
                }
            }
        },
        Stimulus::WriterJoined => {},
    }
}

/// Every pipeline that a run of stimuli leads to, from a consistent one, is
/// consistent.
pub proof fn lemma_run_keeps_consistent(p: Pipeline, stimuli: Seq<Stimulus>)
    requires
        consistent(p),
    ensures
        consistent(pipeline_run(p, stimuli)),
    decreases stimuli.len(),
{
    if stimuli.len() > 0 {
        lemma_step_keeps_consistent(p, stimuli[0]);
        lemma_run_keeps_consistent(pipeline_step(p, stimuli[0]), stimuli.skip(1));
    }
}

/// A datagram that arrives while the loop waits and the writer lives is
/// handed to the queue and sent back as a datagram, both with the bytes that
/// arrived, and the loop ends up in the datagram echo.
pub proof fn lemma_echo_is_verbatim(p: Pipeline, payload: Seq<u8>)
    requires
        p.session.phase is Waiting,
        !(p.writer is Finished),
    ensures
        session_transition(p.session, SessionEventView::Datagram(payload)).1
            == SessionActionView::Enqueue(payload),
        session_transition(
            session_transition(p.session, SessionEventView::Datagram(payload)).0,
            SessionEventView::Enqueued,
        ).1 == SessionActionView::SendDatagram(payload),
        pipeline_step(p, Stimulus::Session(SessionEventView::Datagram(payload))).queue
            == p.queue.push(payload),
        pipeline_step(p, Stimulus::Session(SessionEventView::Datagram(payload))).replies
            == p.replies.push(payload),
        pipeline_step(p, Stimulus::Session(SessionEventView::Datagram(payload))).arrivals
            == p.arrivals.push(payload),
        pipeline_step(p, Stimulus::Session(SessionEventView::Datagram(payload))).session.phase
            is Replying,
{
}

/// Over every run of an opened session: what was sent back as datagrams is
/// what the queue took, payload for payload; and while the writer lives
/// that is everything that arrived.
pub proof fn lemma_every_arrival_is_echoed_twice(id: u64, stimuli: Seq<Stimulus>)
    ensures
        pipeline_run(opened(id), stimuli).replies == pipeline_run(opened(id), stimuli).queued,
        pipeline_run(opened(id), stimuli).queued.is_prefix_of(
            pipeline_run(opened(id), stimuli).arrivals,
        ),
        !(pipeline_run(opened(id), stimuli).writer is Finished) ==> pipeline_run(
            opened(id),
            stimuli,
        ).queued == pipeline_run(opened(id), stimuli).arrivals,
        pipeline_run(opened(id), stimuli).arrivals.len() <= pipeline_run(
            opened(id),
            stimuli,
        ).queued.len() + 1,
{
    assert(opened(id).written + flying(opened(id)) + opened(id).queue =~= opened(id).queued);
    lemma_run_keeps_consistent(opened(id), stimuli);
}

/// Over every run of an opened session, the stream writes are the first of
/// the arrivals, in the order of arrival and with their bytes: nothing is
/// written twice, out of turn or changed. While no write has failed, what
/// is written, in flight and queued is, in this order, all the queue took.
pub proof fn lemma_stream_writes_keep_arrival_order(id: u64, stimuli: Seq<Stimulus>)
    ensures
        pipeline_run(opened(id), stimuli).written.is_prefix_of(
            pipeline_run(opened(id), stimuli).arrivals,
        ),
        pipeline_run(opened(id), stimuli).writer != WriterState::Finished(WriterExit::WriteFailed)
            ==> pipeline_run(opened(id), stimuli).written + flying(
            pipeline_run(opened(id), stimuli),
        ) + pipeline_run(opened(id), stimuli).queue == pipeline_run(opened(id), stimuli).queued,
{
    assert(opened(id).written + flying(opened(id)) + opened(id).queue =~= opened(id).queued);
    lemma_run_keeps_consistent(opened(id), stimuli);
    let end = pipeline_run(opened(id), stimuli);
    assert(end.written.is_prefix_of(end.arrivals)) by {
        assert(end.written.is_prefix_of(end.queued));
        assert(end.queued.is_prefix_of(end.arrivals));
        assert(end.written =~= end.arrivals.subrange(0, end.written.len() as int)) by {
            assert(end.queued.subrange(0, end.written.len() as int) =~= end.arrivals.subrange(
                0,
                end.written.len() as int,
            ));
        }
    }
}

proof fn lemma_flush_writes_the_queue(p: Pipeline)
    requires
        p.writer == WriterState::Receiving,
        p.in_flight is None,
    ensures
        pipeline_run(p, flush(p.queue.len())) == (Pipeline {
            written: p.written + p.queue,
            queue: Seq::empty(),
            ..p
        }),
    decreases p.queue.len(),
{
    let n = p.queue.len();
    if n == 0 {
        assert(p.written + p.queue =~= p.written);
        assert(p.queue =~= Seq::<Seq<u8>>::empty());
    } else {
        let stimuli = flush(n);
        let taken = pipeline_step(p, Stimulus::WriterPoll);
        let done = pipeline_step(taken, Stimulus::WriteDone(true));
        assert(stimuli[0] == Stimulus::WriterPoll);
        assert(stimuli.skip(1)[0] == Stimulus::WriteDone(true));
        assert(stimuli.skip(1).skip(1) =~= flush((n - 1) as nat));
        assert(pipeline_run(p, stimuli) == pipeline_run(done, flush((n - 1) as nat))) by {
            reveal_with_fuel(pipeline_run, 3);
        }
        assert(done.queue == p.queue.skip(1));
        lemma_flush_writes_the_queue(done);
        assert(done.written + done.queue =~= p.written + p.queue) by {
            assert(flying(taken) =~= seq![p.queue[0]]);
            assert(seq![p.queue[0]] + p.queue.skip(1) =~= p.queue);
        }
    }
}

proof fn lemma_run_concat(p: Pipeline, first: Seq<Stimulus>, second: Seq<Stimulus>)
    ensures
        pipeline_run(p, first + second) == pipeline_run(pipeline_run(p, first), second),
    decreases first.len(),
{
    if first.len() == 0 {
        assert(first + second =~= second);
    } else {
        assert((first + second)[0] == first[0]);
        assert((first + second).skip(1) =~= first.skip(1) + second);
        lemma_run_concat(pipeline_step(p, first[0]), first.skip(1), second);
    }
}

proof fn lemma_settle(p: Pipeline)
    requires
        consistent(p),
        state_of(p.session.phase) == SessionState::Active,
    ensures
        pipeline_run(p, settle(p.session.phase is Replying)) == (Pipeline {
            session: SessionView { id: p.session.id, phase: SessionPhaseView::Waiting },
            ..p
        }),
{
    reveal_with_fuel(pipeline_run, 3);
    let stimuli = settle(p.session.phase is Replying);
    if p.session.phase is Replying {
        assert(stimuli[0] == Stimulus::Session(SessionEventView::DatagramSent));
        assert(stimuli.skip(1) =~= Seq::<Stimulus>::empty());
    }
}

/// The shutdown signal alone changes nothing but the session loop: observed
/// while the loop waits, it moves the session to `Draining` and releases
/// the producer side of the queue; the writer, the write in flight, the
/// queue and all that was written stay as they are.
pub proof fn lemma_shutdown_leaves_the_writer_alone(p: Pipeline)
    requires
        p.session.phase is Waiting,
    ensures
        pipeline_step(p, Stimulus::Session(SessionEventView::Shutdown)) == (Pipeline {
            session: SessionView {
                id: p.session.id,
                phase: SessionPhaseView::Draining(SessionEnd::Shutdown),
            },
            producer: false,
            ..p
        }),
{
}

/// The shutdown signal costs no payload and closes every active session in
/// bounded time. Where the writer lives and no write fails: the datagram
/// echo on its way completes, the loop observes the signal, the writer
/// completes the write in flight, writes every queued payload in order,
/// finds the queue closed and ends, and the session is closed. That takes
/// two steps for each queued payload and at most five more, and by then all
/// that arrived is written.
pub proof fn lemma_shutdown_drains_and_closes(p: Pipeline)
    requires
        consistent(p),
        state_of(p.session.phase) == SessionState::Active,
        !(p.writer is Finished),
    ensures
        shutdown_schedule(p.session.phase is Replying, p.in_flight is Some, p.queue.len()).len()
            <= 2 * p.queue.len() + 5,
        pipeline_run(
            p,
            shutdown_schedule(p.session.phase is Replying, p.in_flight is Some, p.queue.len()),
        ) == (Pipeline {
            session: SessionView {
                id: p.session.id,
                phase: SessionPhaseView::Closed(SessionEnd::Shutdown),
            },
            writer: WriterState::Finished(WriterExit::QueueClosed),
            producer: false,
            queue: Seq::empty(),
            in_flight: None,
            written: p.arrivals,
            ..p
        }),
        p.arrivals == p.written + flying(p) + p.queue,
{
    let n = p.queue.len();
    let writing = p.in_flight is Some;
    let calm = settle(p.session.phase is Replying);
    let signal = seq![Stimulus::Session(SessionEventView::Shutdown)];
    let finish: Seq<Stimulus> = if writing {
        seq![Stimulus::WriteDone(true)]
    } else {
        Seq::empty()
    };
    let tail = seq![Stimulus::WriterPoll, Stimulus::WriterJoined];
    lemma_flush_len(n);
    lemma_settle(p);
    let waits = pipeline_run(p, calm);
    let draining = pipeline_step(waits, Stimulus::Session(SessionEventView::Shutdown));
    assert(pipeline_run(waits, signal) == draining) by {
        reveal_with_fuel(pipeline_run, 3);
        assert(signal[0] == Stimulus::Session(SessionEventView::Shutdown));
        assert(signal.skip(1) =~= Seq::<Stimulus>::empty());
    }
    let idle = pipeline_run(draining, finish);
    assert(idle == (Pipeline {
        writer: WriterState::Receiving,
        in_flight: None,
        written: p.written + flying(p),
        ..draining
    })) by {
        reveal_with_fuel(pipeline_run, 3);
        if writing {
            assert(finish[0] == Stimulus::WriteDone(true));
            assert(finish.skip(1) =~= Seq::<Stimulus>::empty());
        } else {
            assert(p.written + flying(p) =~= p.written);
        }
    }
    lemma_flush_writes_the_queue(idle);
    let flushed = pipeline_run(idle, flush(n));
    let ended = pipeline_step(flushed, Stimulus::WriterPoll);
    let closed = pipeline_step(ended, Stimulus::WriterJoined);
    assert(pipeline_run(flushed, tail) == closed) by {
        reveal_with_fuel(pipeline_run, 4);
        assert(tail[0] == Stimulus::WriterPoll);
        assert(tail.skip(1)[0] == Stimulus::WriterJoined);
        assert(tail.skip(1).skip(1) =~= Seq::<Stimulus>::empty());
    }
    lemma_run_concat(p, calm, signal);
    lemma_run_concat(p, calm + signal, finish);
    lemma_run_concat(p, calm + signal + finish, flush(n));
    lemma_run_concat(p, calm + signal + finish + flush(n), tail);
    assert(closed.written =~= p.arrivals);
    assert(closed.queue =~= Seq::<Seq<u8>>::empty());
}

/// Where the writer has already ended, the shutdown signal closes an active
/// session in at most three steps: the datagram echo on its way completes,
/// the loop observes the signal, and the end of the writer is reported.
pub proof fn lemma_shutdown_closes_without_writer(p: Pipeline)
    requires
        consistent(p),
        state_of(p.session.phase) == SessionState::Active,
        p.writer is Finished,
    ensures
        pipeline_run(
            p,
            settle(p.session.phase is Replying) + seq![
                Stimulus::Session(SessionEventView::Shutdown),
                Stimulus::WriterJoined,
            ],
        ) == (Pipeline {
            session: SessionView {
                id: p.session.id,
                phase: SessionPhaseView::Closed(SessionEnd::Shutdown),
            },
            producer: false,
            ..p
        }),
{
    let calm = settle(p.session.phase is Replying);
    let rest = seq![Stimulus::Session(SessionEventView::Shutdown), Stimulus::WriterJoined];
    lemma_settle(p);
    let waits = pipeline_run(p, calm);
    assert(pipeline_run(waits, rest) == pipeline_step(
        pipeline_step(waits, Stimulus::Session(SessionEventView::Shutdown)),
        Stimulus::WriterJoined,
    )) by {
        reveal_with_fuel(pipeline_run, 4);
        assert(rest[0] == Stimulus::Session(SessionEventView::Shutdown));
        assert(rest.skip(1)[0] == Stimulus::WriterJoined);
        assert(rest.skip(1).skip(1) =~= Seq::<Stimulus>::empty());
    }
    lemma_run_concat(p, calm, rest);
}

proof fn lemma_flush_len(n: nat)
    ensures
        flush(n).len() == 2 * n,
    decreases n,
{
    if n > 0 {
        lemma_flush_len((n - 1) as nat);
    }
}

} // verus!
