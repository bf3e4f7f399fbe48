use tls_client_stream::{
    Action, ConnectionAttempt, EstablishError, Event, Phase, Platform, SendError, SendHandle,
    SocketAddress, TlsClientStreamBuilder,
};

#[derive(Debug, PartialEq)]
enum TcpFailure {
    Unreachable,
    Refused,
    Reset,
}

#[derive(Debug, PartialEq)]
enum TlsFailure {
    UntrustedChain,
    Expired,
    NameMismatch,
    NoCommonVersion,
    MalformedIdentity,
}

struct Stub;

impl Platform for Stub {
    type TrustAnchor = u8;
    type Identity = u8;
    type Scheduler = ();
    type ConnectError = TcpFailure;
    type HandshakeError = TlsFailure;
}

fn resolver() -> SocketAddress {
    SocketAddress::V4 { ipv4: 0xc000_0201, port: 853 }
}

fn built(subject_name: &str) -> (ConnectionAttempt<Stub>, SendHandle) {
    let mut builder = TlsClientStreamBuilder::<Stub>::new();
    builder.add_ca(1);
    builder.build(resolver(), subject_name.to_string(), ())
}

fn connecting() -> (ConnectionAttempt<Stub>, SendHandle) {
    let (attempt, mut sender) = built("ns.example");
    let (attempt, _) = attempt.step(Event::Driven, &mut sender);
    (attempt, sender)
}

fn handshaking(subject_name: &str) -> (ConnectionAttempt<Stub>, SendHandle) {
    let (attempt, mut sender) = built(subject_name);
    let (attempt, _) = attempt.step(Event::Driven, &mut sender);
    let (attempt, _) = attempt.step(Event::Connected, &mut sender);
    (attempt, sender)
}

fn every_event() -> Vec<Event<Stub>> {
    vec![
        Event::Driven,
        Event::Connected,
        Event::ConnectFailed(TcpFailure::Reset),
        Event::HandshakeCompleted,
        Event::HandshakeFailed(TlsFailure::Expired),
        Event::Dropped,
    ]
}

#[test]
fn a_successful_attempt_passes_through_every_phase_in_order() {
    let (attempt, mut sender) = built("ns.example");
    assert_eq!(attempt.phase(), Phase::Unstarted);

    let (attempt, action) = attempt.step(Event::Driven, &mut sender);
    assert_eq!(attempt.phase(), Phase::Connecting);
    assert!(matches!(action, Action::Connect { .. }));

    let (attempt, action) = attempt.step(Event::Connected, &mut sender);
    assert_eq!(attempt.phase(), Phase::Handshaking);
    assert!(matches!(action, Action::Handshake { .. }));

    let (attempt, action) = attempt.step(Event::HandshakeCompleted, &mut sender);
    assert_eq!(attempt.phase(), Phase::Ready);
    match action {
        Action::Adapt { peer, backlog } => {
            assert_eq!(peer, resolver());
            assert!(backlog.is_empty());
        },
        _ => panic!("no stream was produced"),
    }
}

#[test]
fn no_stream_is_produced_before_the_connection_is_open() {
    let (attempt, mut sender) = built("ns.example");
    let (attempt, action) = attempt.step(Event::HandshakeCompleted, &mut sender);
    assert!(matches!(action, Action::Ignored));
    assert_eq!(attempt.phase(), Phase::Unstarted);

    let (attempt, _) = attempt.step(Event::Driven, &mut sender);
    let (attempt, action) = attempt.step(Event::HandshakeCompleted, &mut sender);
    assert!(matches!(action, Action::Ignored));
    assert_eq!(attempt.phase(), Phase::Connecting);
}

#[test]
fn no_handshake_is_asked_for_before_the_connection_is_open() {
    let (attempt, mut sender) = built("ns.example");
    let (attempt, action) = attempt.step(Event::Connected, &mut sender);
    assert!(matches!(action, Action::Ignored));
    assert_eq!(attempt.phase(), Phase::Unstarted);

    // The configuration is still there when the connection does open.
    let (attempt, _) = attempt.step(Event::Driven, &mut sender);
    let (_, action) = attempt.step(Event::Connected, &mut sender);
    match action {
        Action::Handshake { request } => assert_eq!(request.anchors, vec![1]),
        _ => panic!("the handshake was not asked for"),
    }
}

#[test]
fn the_handshake_is_asked_for_only_once() {
    let (attempt, mut sender) = handshaking("ns.example");
    let (attempt, action) = attempt.step(Event::Connected, &mut sender);
    assert!(matches!(action, Action::Ignored));
    assert_eq!(attempt.phase(), Phase::Handshaking);
}

#[test]
fn driving_again_does_not_open_a_second_connection() {
    let (attempt, mut sender) = connecting();
    let (attempt, action) = attempt.step(Event::Driven, &mut sender);
    assert!(matches!(action, Action::Ignored));
    assert_eq!(attempt.phase(), Phase::Connecting);
}

#[test]
fn a_refused_connection_fails_the_attempt() {
    let (attempt, mut sender) = connecting();
    let (attempt, action) = attempt.step(Event::ConnectFailed(TcpFailure::Refused), &mut sender);
    assert_eq!(attempt.phase(), Phase::Failed);
    match action {
        Action::Fail { error: EstablishError::Connection(cause) } => {
            assert_eq!(cause, TcpFailure::Refused)
        },
        _ => panic!("the attempt did not fail with the cause"),
    }
}

#[test]
fn an_unreachable_resolver_fails_the_attempt() {
    let (attempt, mut sender) = connecting();
    let (attempt, action) =
        attempt.step(Event::ConnectFailed(TcpFailure::Unreachable), &mut sender);
    assert_eq!(attempt.phase(), Phase::Failed);
    assert!(matches!(
        action,
        Action::Fail { error: EstablishError::Connection(TcpFailure::Unreachable) }
    ));
}

#[test]
fn a_name_mismatch_fails_the_attempt_and_no_stream_is_ever_produced() {
    let (attempt, mut sender) = handshaking("bad.example");
    let (attempt, action) =
        attempt.step(Event::HandshakeFailed(TlsFailure::NameMismatch), &mut sender);
    assert_eq!(attempt.phase(), Phase::Failed);
    match action {
        Action::Fail { error: EstablishError::Handshake(cause) } => {
            assert_eq!(cause, TlsFailure::NameMismatch)
        },
        _ => panic!("the attempt did not fail with the cause"),
    }

    let mut attempt = attempt;
    for event in every_event() {
        let (next, action) = attempt.step(event, &mut sender);
        assert!(matches!(action, Action::Ignored));
        assert_eq!(next.phase(), Phase::Failed);
        attempt = next;
    }
}

#[test]
fn every_handshake_failure_is_passed_on_unchanged() {
    for cause in [
        TlsFailure::UntrustedChain,
        TlsFailure::Expired,
        TlsFailure::NameMismatch,
        TlsFailure::NoCommonVersion,
        TlsFailure::MalformedIdentity,
    ] {
        let expected = format!("{:?}", cause);
        let (attempt, mut sender) = handshaking("ns.example");
        let (attempt, action) = attempt.step(Event::HandshakeFailed(cause), &mut sender);
        assert_eq!(attempt.phase(), Phase::Failed);
        match action {
            Action::Fail { error: EstablishError::Handshake(cause) } => {
                assert_eq!(format!("{:?}", cause), expected)
            },
            _ => panic!("the attempt did not fail with the cause"),
        }
    }
}

#[test]
fn a_failure_report_of_the_wrong_phase_is_ignored() {
    let (attempt, mut sender) = connecting();
    let (attempt, action) =
        attempt.step(Event::HandshakeFailed(TlsFailure::UntrustedChain), &mut sender);
    assert!(matches!(action, Action::Ignored));
    assert_eq!(attempt.phase(), Phase::Connecting);
    assert!(!sender.is_closed());

    let (attempt, mut sender) = handshaking("ns.example");
    let (attempt, action) = attempt.step(Event::ConnectFailed(TcpFailure::Reset), &mut sender);
    assert!(matches!(action, Action::Ignored));
    assert_eq!(attempt.phase(), Phase::Handshaking);
    assert!(!sender.is_closed());
}

#[test]
fn a_ready_attempt_ignores_every_event() {
    let (attempt, mut sender) = handshaking("ns.example");
    let (attempt, _) = attempt.step(Event::HandshakeCompleted, &mut sender);
    let mut attempt = attempt;
    for event in every_event() {
        let (next, action) = attempt.step(event, &mut sender);
        assert!(matches!(action, Action::Ignored));
        assert_eq!(next.phase(), Phase::Ready);
        attempt = next;
    }
    assert!(!sender.is_closed());
}

#[test]
fn dropping_mid_handshake_releases_the_connection() {
    let (attempt, mut sender) = handshaking("ns.example");
    let (attempt, action) = attempt.step(Event::Dropped, &mut sender);
    assert_eq!(attempt.phase(), Phase::Failed);
    assert!(matches!(action, Action::Abandon { release_connection: true }));
    assert!(sender.is_closed());
}

#[test]
fn dropping_mid_connect_releases_the_connection() {
    let (attempt, mut sender) = connecting();
    let (attempt, action) = attempt.step(Event::Dropped, &mut sender);
    assert_eq!(attempt.phase(), Phase::Failed);
    assert!(matches!(action, Action::Abandon { release_connection: true }));
    assert!(sender.is_closed());
}

#[test]
fn dropping_an_unstarted_attempt_has_nothing_to_release() {
    let (attempt, mut sender) = built("ns.example");
    let (attempt, action) = attempt.step(Event::Dropped, &mut sender);
    assert_eq!(attempt.phase(), Phase::Failed);
    assert!(matches!(action, Action::Abandon { release_connection: false }));
    assert!(sender.is_closed());
}

#[test]
fn frames_sent_before_the_stream_is_ready_are_delivered_in_order() {
    let (attempt, mut sender) = built("ns.example");
    assert_eq!(sender.send(vec![1, 1], resolver()), Ok(()));
    let (attempt, _) = attempt.step(Event::Driven, &mut sender);
    assert_eq!(sender.send(vec![2], resolver()), Ok(()));
    let (attempt, _) = attempt.step(Event::Connected, &mut sender);
    assert_eq!(sender.send(vec![], resolver()), Ok(()));
    assert_eq!(sender.send(vec![3, 3, 3], resolver()), Ok(()));

    let (attempt, action) = attempt.step(Event::HandshakeCompleted, &mut sender);
    assert_eq!(attempt.phase(), Phase::Ready);
    match action {
        Action::Adapt { peer, backlog } => {
            assert_eq!(peer, resolver());
            assert_eq!(backlog, vec![vec![1, 1], vec![2], vec![], vec![3, 3, 3]]);
        },
        _ => panic!("no stream was produced"),
    }
    assert!(sender.drain().is_empty());
}

#[test]
fn frames_sent_after_the_stream_is_ready_wait_for_the_stream() {
    let (attempt, mut sender) = handshaking("ns.example");
    assert_eq!(sender.send(vec![1], resolver()), Ok(()));
    let (_, action) = attempt.step(Event::HandshakeCompleted, &mut sender);
    assert!(matches!(action, Action::Adapt { .. }));

    assert_eq!(sender.send(vec![2], resolver()), Ok(()));
    assert_eq!(sender.send(vec![3], resolver()), Ok(()));
    assert_eq!(sender.drain(), vec![vec![2], vec![3]]);
}

#[test]
fn frames_sent_before_a_failure_are_discarded() {
    let (attempt, mut sender) = handshaking("bad.example");
    assert_eq!(sender.send(vec![1], resolver()), Ok(()));
    assert_eq!(sender.send(vec![2], resolver()), Ok(()));
    let (_, action) = attempt.step(Event::HandshakeFailed(TlsFailure::NameMismatch), &mut sender);
    assert!(matches!(action, Action::Fail { .. }));
    assert!(sender.is_closed());
    assert!(sender.drain().is_empty());
}

#[test]
fn the_handle_of_a_failed_attempt_refuses_every_frame() {
    let (attempt, mut sender) = connecting();
    let (_, _) = attempt.step(Event::ConnectFailed(TcpFailure::Reset), &mut sender);
    assert_eq!(sender.send(vec![1], resolver()), Err(SendError::Closed));
    assert_eq!(sender.send(vec![2], resolver()), Err(SendError::Closed));
    assert!(sender.drain().is_empty());
}

#[test]
fn the_handle_of_a_dropped_attempt_refuses_every_frame() {
    let (attempt, mut sender) = handshaking("ns.example");
    assert_eq!(sender.send(vec![1], resolver()), Ok(()));
    let (_, _) = attempt.step(Event::Dropped, &mut sender);
    assert_eq!(sender.send(vec![2], resolver()), Err(SendError::Closed));
    assert!(sender.drain().is_empty());
}
