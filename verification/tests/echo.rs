use bytes::Bytes;
use webtransport_lag_investigation::session::{
    Session, SessionAction, SessionEnd, SessionEvent, SessionState, LIVENESS_INTERVAL_SECS,
};
use webtransport_lag_investigation::writer::{
    StreamWriter, WriterAction, WriterEvent, WriterExit, WriterState,
};

/// A session with its queue, its writer and what went out on its two paths.
struct Rig {
    session: Session,
    writer: StreamWriter,
    producer: Option<flume::Sender<Bytes>>,
    consumer: Option<flume::Receiver<Bytes>>,
    datagrams: Vec<Vec<u8>>,
    stream: Vec<Vec<u8>>,
    finished: Option<SessionEnd>,
}

fn rig(id: u64) -> Rig {
    let (producer, consumer) = flume::unbounded::<Bytes>();
    let mut session = Session::new(id);
    assert_eq!(session.step(SessionEvent::StreamOpened), SessionAction::AwaitEvent);
    Rig {
        session,
        writer: StreamWriter::new(),
        producer: Some(producer),
        consumer: Some(consumer),
        datagrams: Vec::new(),
        stream: Vec::new(),
        finished: None,
    }
}

/// Reports `event` to the session and carries out what it asks for, with
/// every datagram sent well.
fn report(rig: &mut Rig, event: SessionEvent) {
    let mut action = rig.session.step(event);
    loop {
        action = match action {
            SessionAction::Enqueue(payload) => {
                let taken = match &rig.producer {
                    Some(producer) => producer.send(payload).is_ok(),
                    None => false,
                };
                rig.session.step(if taken {
                    SessionEvent::Enqueued
                } else {
                    SessionEvent::EnqueueFailed
                })
            }
            SessionAction::SendDatagram(payload) => {
                rig.datagrams.push(payload.to_vec());
                rig.session.step(SessionEvent::DatagramSent)
            }
            SessionAction::ReleaseProducer => {
                rig.producer = None;
                return;
            }
            SessionAction::Finish(end) => {
                rig.finished = Some(end);
                return;
            }
            _ => return,
        };
    }
}

/// Lets the writer run until the queue has nothing for it; `fail_at` is the
/// number of writes that complete before one fails.
fn run_writer(rig: &mut Rig, fail_at: Option<usize>) {
    while !rig.writer.is_finished() {
        let consumer = rig.consumer.as_ref().expect("a live writer holds the consumer");
        let event = match consumer.try_recv() {
            Ok(payload) => WriterEvent::Received(payload),
            Err(flume::TryRecvError::Disconnected) => WriterEvent::QueueClosed,
            Err(flume::TryRecvError::Empty) => return,
        };
        match rig.writer.step(event) {
            WriterAction::Write(payload) => {
                if fail_at == Some(rig.stream.len()) {
                    assert_eq!(rig.writer.step(WriterEvent::WriteFailed), WriterAction::Abandon);
                } else {
                    rig.stream.push(payload.to_vec());
                    assert_eq!(rig.writer.step(WriterEvent::WriteCompleted), WriterAction::Receive);
                }
            }
            WriterAction::CloseStream => {}
            other => panic!("a waiting writer asked for {:?}", other),
        }
    }
    rig.consumer = None;
}

#[test]
fn liveness_interval_is_ten_seconds() {
    assert_eq!(LIVENESS_INTERVAL_SECS, 10);
}

#[test]
fn datagram_is_queued_first_and_then_sent_back_with_its_bytes() {
    let mut session = Session::new(7);
    assert_eq!(session.id(), 7);
    assert_eq!(session.state(), SessionState::Active);
    assert_eq!(session.step(SessionEvent::StreamOpened), SessionAction::AwaitEvent);
    let payload = Bytes::from_static(b"\x00\x01\x02");
    assert_eq!(
        session.step(SessionEvent::Datagram(payload.clone())),
        SessionAction::Enqueue(payload.clone())
    );
    assert_eq!(session.step(SessionEvent::Enqueued), SessionAction::SendDatagram(payload));
    assert_eq!(session.step(SessionEvent::DatagramSent), SessionAction::AwaitEvent);
    assert_eq!(session.state(), SessionState::Active);
}

#[test]
fn one_datagram_comes_back_once_on_each_path() {
    let mut rig = rig(3);
    report(&mut rig, SessionEvent::Datagram(Bytes::from_static(b"\x00\x01\x02")));
    run_writer(&mut rig, None);
    assert_eq!(rig.session.id(), 3);
    assert_eq!(rig.datagrams, vec![vec![0u8, 1, 2]]);
    assert_eq!(rig.stream, vec![vec![0u8, 1, 2]]);
}

#[test]
fn payloads_of_any_length_are_echoed_unchanged() {
    let mut rig = rig(1);
    let long: Vec<u8> = (0..5000u32).map(|i| (i % 251) as u8).collect();
    let payloads = vec![Vec::new(), vec![0xff], long, b"-----BEGIN".to_vec()];
    for payload in &payloads {
        report(&mut rig, SessionEvent::Datagram(Bytes::from(payload.clone())));
    }
    run_writer(&mut rig, None);
    assert_eq!(rig.datagrams, payloads);
    assert_eq!(rig.stream, payloads);
}

#[test]
fn stream_writes_follow_the_order_of_arrival() {
    let mut rig = rig(1);
    let mut expected = Vec::new();
    for i in 0..50u8 {
        let payload = vec![i, i.wrapping_mul(7), 0xa5];
        expected.push(payload.clone());
        report(&mut rig, SessionEvent::Datagram(Bytes::from(payload)));
        if i % 7 == 0 {
            run_writer(&mut rig, None);
        }
        if i % 5 == 0 {
            report(&mut rig, SessionEvent::Tick);
        }
    }
    run_writer(&mut rig, None);
    assert_eq!(rig.stream, expected);
    assert_eq!(rig.datagrams, expected);
}

#[test]
fn two_sessions_keep_their_payloads_apart() {
    let mut first = rig(0);
    let mut second = rig(4);
    let mut sent_first = Vec::new();
    let mut sent_second = Vec::new();
    for i in 0..100u8 {
        let a = vec![b'a', i];
        let b = vec![b'b', i, i];
        sent_first.push(a.clone());
        sent_second.push(b.clone());
        report(&mut first, SessionEvent::Datagram(Bytes::from(a)));
        report(&mut second, SessionEvent::Datagram(Bytes::from(b)));
        if i % 3 == 0 {
            run_writer(&mut second, None);
        }
        if i % 4 == 0 {
            run_writer(&mut first, None);
        }
    }
    run_writer(&mut first, None);
    run_writer(&mut second, None);
    assert_eq!(first.stream, sent_first);
    assert_eq!(first.datagrams, sent_first);
    assert_eq!(second.stream, sent_second);
    assert_eq!(second.datagrams, sent_second);
    assert!(first.stream.iter().all(|payload| payload[0] == b'a'));
    assert!(second.stream.iter().all(|payload| payload[0] == b'b'));
}

#[test]
fn tick_reports_liveness_and_changes_nothing() {
    let mut session = Session::new(9);
    session.step(SessionEvent::StreamOpened);
    assert_eq!(session.step(SessionEvent::Tick), SessionAction::ReportLiveness(9));
    assert_eq!(session.state(), SessionState::Active);
    assert_eq!(session.step(SessionEvent::NoDatagram), SessionAction::AwaitEvent);
    let payload = Bytes::from_static(b"after the tick");
    assert_eq!(
        session.step(SessionEvent::Datagram(payload.clone())),
        SessionAction::Enqueue(payload)
    );
}

#[test]
fn failed_datagram_is_reported_and_the_loop_goes_on() {
    let mut session = Session::new(2);
    session.step(SessionEvent::StreamOpened);
    session.step(SessionEvent::Datagram(Bytes::from_static(b"one")));
    session.step(SessionEvent::Enqueued);
    assert_eq!(session.step(SessionEvent::DatagramFailed), SessionAction::ReportSendFailure);
    assert_eq!(session.state(), SessionState::Active);
    let next = Bytes::from_static(b"two");
    assert_eq!(session.step(SessionEvent::Datagram(next.clone())), SessionAction::Enqueue(next));
}

#[test]
fn stream_that_cannot_be_opened_closes_the_session() {
    let mut session = Session::new(5);
    assert_eq!(
        session.step(SessionEvent::StreamFailed),
        SessionAction::Finish(SessionEnd::StreamUnavailable)
    );
    assert_eq!(session.state(), SessionState::Closed);
    assert_eq!(
        session.step(SessionEvent::Datagram(Bytes::from_static(b"late"))),
        SessionAction::Ignore
    );
}

#[test]
fn shutdown_drains_the_queue_and_closes_the_session() {
    let mut rig = rig(6);
    let payloads: Vec<Vec<u8>> = (0..5u8).map(|i| vec![i; 3]).collect();
    for payload in &payloads {
        report(&mut rig, SessionEvent::Datagram(Bytes::from(payload.clone())));
    }
    assert!(rig.stream.is_empty());
    report(&mut rig, SessionEvent::Shutdown);
    assert_eq!(rig.session.state(), SessionState::Draining);
    assert!(rig.producer.is_none());
    run_writer(&mut rig, None);
    assert_eq!(rig.stream, payloads);
    assert_eq!(rig.writer.state(), WriterState::Finished(WriterExit::QueueClosed));
    report(&mut rig, SessionEvent::WriterExited);
    assert_eq!(rig.session.state(), SessionState::Closed);
    assert_eq!(rig.finished, Some(SessionEnd::Shutdown));
}

#[test]
fn closed_or_draining_session_takes_no_datagram() {
    let mut rig = rig(6);
    report(&mut rig, SessionEvent::Shutdown);
    assert_eq!(
        rig.session.step(SessionEvent::Datagram(Bytes::from_static(b"late"))),
        SessionAction::Ignore
    );
    assert_eq!(rig.session.step(SessionEvent::Tick), SessionAction::Ignore);
    assert_eq!(rig.session.step(SessionEvent::Shutdown), SessionAction::Ignore);
    assert_eq!(rig.session.state(), SessionState::Draining);
    assert_eq!(
        rig.session.step(SessionEvent::WriterExited),
        SessionAction::Finish(SessionEnd::Shutdown)
    );
    assert_eq!(rig.session.step(SessionEvent::WriterExited), SessionAction::Ignore);
    assert_eq!(rig.session.state(), SessionState::Closed);
}

#[test]
fn failed_write_ends_the_writer_and_then_the_session() {
    let mut rig = rig(8);
    for i in 0..4u8 {
        report(&mut rig, SessionEvent::Datagram(Bytes::from(vec![i])));
    }
    run_writer(&mut rig, Some(2));
    assert_eq!(rig.writer.state(), WriterState::Finished(WriterExit::WriteFailed));
    assert_eq!(rig.stream, vec![vec![0u8], vec![1u8]]);
    assert_eq!(rig.session.state(), SessionState::Active);
    report(&mut rig, SessionEvent::Datagram(Bytes::from_static(b"refused")));
    assert_eq!(rig.session.state(), SessionState::Draining);
    assert_eq!(rig.datagrams.len(), 4);
    report(&mut rig, SessionEvent::WriterExited);
    assert_eq!(rig.finished, Some(SessionEnd::WriterGone));
    assert_eq!(rig.session.state(), SessionState::Closed);
}

#[test]
fn writer_writes_one_payload_at_a_time() {
    let mut writer = StreamWriter::new();
    assert_eq!(writer.state(), WriterState::Receiving);
    let first = Bytes::from_static(b"first");
    assert_eq!(writer.step(WriterEvent::Received(first.clone())), WriterAction::Write(first));
    assert_eq!(writer.state(), WriterState::Writing);
    assert_eq!(
        writer.step(WriterEvent::Received(Bytes::from_static(b"second"))),
        WriterAction::Ignore
    );
    assert_eq!(writer.step(WriterEvent::QueueClosed), WriterAction::Ignore);
    assert_eq!(writer.state(), WriterState::Writing);
    assert_eq!(writer.step(WriterEvent::WriteCompleted), WriterAction::Receive);
    assert_eq!(writer.step(WriterEvent::WriteCompleted), WriterAction::Ignore);
    assert_eq!(writer.step(WriterEvent::QueueClosed), WriterAction::CloseStream);
    assert_eq!(writer.state(), WriterState::Finished(WriterExit::QueueClosed));
    assert!(writer.is_finished());
    assert_eq!(
        writer.step(WriterEvent::Received(Bytes::from_static(b"late"))),
        WriterAction::Ignore
    );
}
