use webtransport_lag_investigation::acceptor::{
    AbandonReason, Acceptor, AcceptorAction, AcceptorEvent, AcceptorState, HandshakeData,
};
use webtransport_lag_investigation::config::http3_settings;
use webtransport_lag_investigation::connection::{
    request_kind, ConnectionAction, ConnectionEnd, ConnectionEvent, ConnectionState,
    ConnectionTask, RequestKind,
};
use webtransport_lag_investigation::session::SessionEnd;

#[test]
fn accept_loop_spawns_a_task_for_a_tls_handshake() {
    let mut acceptor = Acceptor::new();
    assert_eq!(acceptor.state(), AcceptorState::Accepting);
    assert_eq!(acceptor.step(AcceptorEvent::Incoming), AcceptorAction::Inspect);
    assert_eq!(acceptor.state(), AcceptorState::Inspecting);
    assert_eq!(
        acceptor.step(AcceptorEvent::Handshake(HandshakeData::Tls)),
        AcceptorAction::Spawn
    );
    assert_eq!(acceptor.state(), AcceptorState::Accepting);
}

#[test]
fn accept_loop_drops_an_attempt_without_tls_handshake_data_and_goes_on() {
    let mut acceptor = Acceptor::new();
    acceptor.step(AcceptorEvent::Incoming);
    assert_eq!(
        acceptor.step(AcceptorEvent::Handshake(HandshakeData::Unavailable)),
        AcceptorAction::Abandon(AbandonReason::NoHandshakeData)
    );
    assert_eq!(acceptor.state(), AcceptorState::Accepting);
    acceptor.step(AcceptorEvent::Incoming);
    assert_eq!(
        acceptor.step(AcceptorEvent::Handshake(HandshakeData::Foreign)),
        AcceptorAction::Abandon(AbandonReason::UnexpectedCrypto)
    );
    assert_eq!(acceptor.state(), AcceptorState::Accepting);
    assert_eq!(acceptor.step(AcceptorEvent::Incoming), AcceptorAction::Inspect);
    assert_eq!(
        acceptor.step(AcceptorEvent::Handshake(HandshakeData::Tls)),
        AcceptorAction::Spawn
    );
}

#[test]
fn accept_loop_stops_on_shutdown_and_accepts_nothing_afterwards() {
    let mut acceptor = Acceptor::new();
    assert_eq!(acceptor.step(AcceptorEvent::Shutdown), AcceptorAction::Stop);
    assert_eq!(acceptor.state(), AcceptorState::Stopped);
    for event in [
        AcceptorEvent::Incoming,
        AcceptorEvent::Handshake(HandshakeData::Tls),
        AcceptorEvent::Shutdown,
        AcceptorEvent::Incoming,
    ] {
        assert_eq!(acceptor.step(event), AcceptorAction::Ignore);
        assert_eq!(acceptor.state(), AcceptorState::Stopped);
    }
}

#[test]
fn accept_loop_ignores_what_does_not_apply() {
    let mut acceptor = Acceptor::new();
    assert_eq!(
        acceptor.step(AcceptorEvent::Handshake(HandshakeData::Tls)),
        AcceptorAction::Ignore
    );
    assert_eq!(acceptor.state(), AcceptorState::Accepting);
    acceptor.step(AcceptorEvent::Incoming);
    assert_eq!(acceptor.step(AcceptorEvent::Incoming), AcceptorAction::Ignore);
    assert_eq!(acceptor.step(AcceptorEvent::Shutdown), AcceptorAction::Ignore);
    assert_eq!(acceptor.state(), AcceptorState::Inspecting);
}

#[test]
fn request_kind_knows_connect_byte_for_byte() {
    assert_eq!(request_kind(b"CONNECT"), RequestKind::Connect);
    assert_eq!(request_kind(b"GET"), RequestKind::Other);
    assert_eq!(request_kind(b"connect"), RequestKind::Other);
    assert_eq!(request_kind(b"CONNECTS"), RequestKind::Other);
    assert_eq!(request_kind(b"CONNEC"), RequestKind::Other);
    assert_eq!(request_kind(b"CONNECX"), RequestKind::Other);
    assert_eq!(request_kind(b"OPTIONS"), RequestKind::Other);
    assert_eq!(request_kind(b""), RequestKind::Other);
}

#[test]
fn connection_goes_from_handshake_to_session_and_ends_with_it() {
    let mut task = ConnectionTask::new();
    assert_eq!(task.state(), ConnectionState::Handshaking);
    assert_eq!(
        task.step(ConnectionEvent::Established),
        ConnectionAction::BuildHttp3(http3_settings())
    );
    assert_eq!(task.state(), ConnectionState::Negotiating);
    assert_eq!(task.step(ConnectionEvent::Http3Ready), ConnectionAction::AcceptRequest);
    assert_eq!(
        task.step(ConnectionEvent::Request(request_kind(b"GET"))),
        ConnectionAction::SkipRequest
    );
    assert_eq!(task.state(), ConnectionState::AwaitingRequest);
    assert_eq!(
        task.step(ConnectionEvent::Request(request_kind(b"CONNECT"))),
        ConnectionAction::Upgrade
    );
    assert_eq!(task.state(), ConnectionState::Upgrading);
    assert_eq!(task.step(ConnectionEvent::Upgraded(4)), ConnectionAction::RunSession(4));
    assert_eq!(task.state(), ConnectionState::InSession(4));
    assert_eq!(
        task.step(ConnectionEvent::SessionEnded(SessionEnd::Shutdown)),
        ConnectionAction::Finish(ConnectionEnd::Session(SessionEnd::Shutdown))
    );
    assert_eq!(task.state(), ConnectionState::Closed(ConnectionEnd::Session(SessionEnd::Shutdown)));
}

#[test]
fn failed_or_timed_out_handshake_never_reaches_http3() {
    for (failure, end) in [
        (ConnectionEvent::HandshakeFailed, ConnectionEnd::HandshakeFailed),
        (ConnectionEvent::HandshakeTimedOut, ConnectionEnd::HandshakeTimedOut),
    ] {
        let mut task = ConnectionTask::new();
        assert_eq!(task.step(failure), ConnectionAction::Finish(end));
        assert_eq!(task.state(), ConnectionState::Closed(end));
        for event in [
            ConnectionEvent::Established,
            ConnectionEvent::Http3Ready,
            ConnectionEvent::Request(RequestKind::Connect),
            ConnectionEvent::Upgraded(0),
            ConnectionEvent::SessionEnded(SessionEnd::Shutdown),
        ] {
            assert_eq!(task.step(event), ConnectionAction::Ignore);
            assert_eq!(task.state(), ConnectionState::Closed(end));
        }
    }
}

#[test]
fn connection_carries_at_most_one_session() {
    let mut task = ConnectionTask::new();
    let mut sessions = 0;
    for event in [
        ConnectionEvent::Established,
        ConnectionEvent::Http3Ready,
        ConnectionEvent::Request(RequestKind::Connect),
        ConnectionEvent::Upgraded(0),
        ConnectionEvent::Request(RequestKind::Connect),
        ConnectionEvent::Upgraded(4),
        ConnectionEvent::Request(RequestKind::Connect),
        ConnectionEvent::SessionEnded(SessionEnd::Shutdown),
        ConnectionEvent::Request(RequestKind::Connect),
        ConnectionEvent::Upgraded(8),
    ] {
        if let ConnectionAction::RunSession(_) = task.step(event) {
            sessions += 1;
        }
    }
    assert_eq!(sessions, 1);
}

#[test]
fn second_connect_during_a_session_is_ignored() {
    let mut task = ConnectionTask::new();
    task.step(ConnectionEvent::Established);
    task.step(ConnectionEvent::Http3Ready);
    task.step(ConnectionEvent::Request(RequestKind::Connect));
    task.step(ConnectionEvent::Upgraded(12));
    assert_eq!(task.step(ConnectionEvent::Request(RequestKind::Connect)), ConnectionAction::Ignore);
    assert_eq!(task.step(ConnectionEvent::Upgraded(16)), ConnectionAction::Ignore);
    assert_eq!(task.state(), ConnectionState::InSession(12));
}

#[test]
fn every_failure_closes_the_connection_with_its_reason() {
    let mut task = ConnectionTask::new();
    task.step(ConnectionEvent::Established);
    assert_eq!(
        task.step(ConnectionEvent::Http3Failed),
        ConnectionAction::Finish(ConnectionEnd::Http3Failed)
    );

    let mut task = ConnectionTask::new();
    task.step(ConnectionEvent::Established);
    task.step(ConnectionEvent::Http3Ready);
    assert_eq!(
        task.step(ConnectionEvent::RequestFailed),
        ConnectionAction::Finish(ConnectionEnd::RequestFailed)
    );

    let mut task = ConnectionTask::new();
    task.step(ConnectionEvent::Established);
    task.step(ConnectionEvent::Http3Ready);
    assert_eq!(
        task.step(ConnectionEvent::PeerClosed),
        ConnectionAction::Finish(ConnectionEnd::PeerClosed)
    );

    let mut task = ConnectionTask::new();
    task.step(ConnectionEvent::Established);
    task.step(ConnectionEvent::Http3Ready);
    task.step(ConnectionEvent::Request(RequestKind::Connect));
    assert_eq!(
        task.step(ConnectionEvent::UpgradeFailed),
        ConnectionAction::Finish(ConnectionEnd::UpgradeFailed)
    );
    assert_eq!(task.state(), ConnectionState::Closed(ConnectionEnd::UpgradeFailed));

    let mut task = ConnectionTask::new();
    task.step(ConnectionEvent::Established);
    task.step(ConnectionEvent::Http3Ready);
    task.step(ConnectionEvent::Request(RequestKind::Connect));
    task.step(ConnectionEvent::Upgraded(0));
    assert_eq!(
        task.step(ConnectionEvent::SessionEnded(SessionEnd::WriterGone)),
        ConnectionAction::Finish(ConnectionEnd::Session(SessionEnd::WriterGone))
    );
}
