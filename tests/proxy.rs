use tor_proxy::barrier::Barrier;
use tor_proxy::proxy::{
    check_request, on_listener_event, upstream_reply, AcceptAction, Authority, BufferSizes,
    ConnEvent, ConnState, ListenerEvent, Reply, RequestError,
};

fn authority(host: &str, port: Option<u16>) -> Option<Authority> {
    Some(Authority { host: host.to_string(), port })
}

#[test]
fn happy_path_opens_tunnel() {
    let host = check_request(true, authority("example.com", Some(443))).unwrap();
    assert_eq!(host, "example.com");
    let reply = upstream_reply(true);
    assert_eq!(reply, Reply { status: 200, body: "" });
    assert_eq!(reply, Reply::tunnel_open());
}

#[test]
fn missing_port_means_https() {
    assert_eq!(check_request(true, authority("example.com", None)).unwrap(), "example.com");
}

#[test]
fn wrong_method_is_not_implemented() {
    let err = check_request(false, None).unwrap_err();
    assert_eq!(err, RequestError::UnsupportedMethod);
    assert_eq!(err.status(), 501);
    assert_eq!(err.message(), "proxy only allows CONNECT request method");
}

#[test]
fn wrong_method_is_checked_before_authority() {
    let err = check_request(false, authority("example.com", Some(80))).unwrap_err();
    assert_eq!(err, RequestError::UnsupportedMethod);
}

#[test]
fn wrong_port_is_bad_request() {
    let err = check_request(true, authority("example.com", Some(80))).unwrap_err();
    assert_eq!(err, RequestError::UnsupportedPort);
    assert_eq!(
        err.reply(),
        Reply { status: 400, body: "proxy only accepts connections to port 443" }
    );
}

#[test]
fn missing_authority_is_invalid_address() {
    let err = check_request(true, None).unwrap_err();
    assert_eq!(err, RequestError::InvalidAddress);
    assert_eq!(err.reply(), Reply { status: 400, body: "invalid address" });
}

#[test]
fn upstream_failure_is_service_unavailable() {
    let reply = upstream_reply(false);
    assert_eq!(
        reply,
        Reply { status: 503, body: "failed to establish connection with upstream" }
    );
    assert_eq!(RequestError::UpstreamConnect.status(), 503);
}

#[test]
fn default_buffers_are_512_bytes() {
    let sizes = BufferSizes::default();
    assert_eq!(sizes, BufferSizes { outgoing_buf: 512, incoming_buf: 512 });
}

#[test]
fn listener_stops_on_shutdown_and_accept_error() {
    let mut barrier = Barrier::build(1_000_000_000, 3).unwrap();
    assert!(matches!(on_listener_event(&mut barrier, ListenerEvent::Shutdown), AcceptAction::Stop));
    assert!(matches!(
        on_listener_event(&mut barrier, ListenerEvent::AcceptFailed),
        AcceptAction::Stop
    ));
}

#[test]
fn listener_drops_connections_beyond_burst() {
    let mut barrier = Barrier::build(1_000_000_000, 3).unwrap();
    let actions: Vec<AcceptAction> =
        (0..5).map(|_| on_listener_event(&mut barrier, ListenerEvent::Accepted)).collect();
    for action in &actions[3..] {
        if let AcceptAction::Drop(wait) = action {
            assert!(*wait > 0 && *wait <= 1_000_000_000);
        }
    }
    for action in &actions[..3] {
        assert!(matches!(action, AcceptAction::Serve));
    }
    for action in &actions[3..] {
        assert!(matches!(action, AcceptAction::Drop(_)));
    }
}

fn run(events: &[ConnEvent]) -> ConnState {
    events.iter().fold(ConnState::Accepted, |s, e| s.step(*e))
}

#[test]
fn connection_happy_path_reaches_closed_through_200() {
    let events = [
        ConnEvent::BarrierPassed,
        ConnEvent::ValidConnect,
        ConnEvent::UpstreamOpened,
        ConnEvent::UpgradeDone,
        ConnEvent::RelayStarted,
    ];
    assert_eq!(run(&events[..3]), ConnState::Responded200);
    assert_eq!(run(&events), ConnState::Relaying);
    assert_eq!(ConnState::Relaying.step(ConnEvent::StreamClosed), ConnState::Closed);
    assert!(ConnState::Closed.is_terminal());
}

#[test]
fn connection_error_paths_end() {
    assert_eq!(run(&[ConnEvent::BarrierJammed]), ConnState::Dropped);
    assert_eq!(
        run(&[ConnEvent::BarrierPassed, ConnEvent::InvalidRequest]),
        ConnState::RespondedErr
    );
    assert_eq!(
        run(&[ConnEvent::BarrierPassed, ConnEvent::ValidConnect, ConnEvent::UpstreamFailed]),
        ConnState::Responded503
    );
    assert!(ConnState::Responded503.is_terminal());
    assert!(!ConnState::Parsing.is_terminal());
}

#[test]
fn relay_cannot_start_before_response() {
    let events = [ConnEvent::BarrierPassed, ConnEvent::ValidConnect, ConnEvent::RelayStarted];
    assert_eq!(run(&events), ConnState::ConnectingUpstream);
    assert_eq!(ConnState::Dropped.step(ConnEvent::RelayStarted), ConnState::Dropped);
}

#[test]
fn listener_binds_loopback_only() {
    assert_eq!(tor_proxy::proxy::loopback_address(8080), ([127, 0, 0, 1], 8080));
}

#[test]
fn buffer_sizes_must_be_positive() {
    assert_eq!(BufferSizes::new(0, 512), None);
    assert_eq!(BufferSizes::new(512, 0), None);
    assert_eq!(
        BufferSizes::new(1024, 2048),
        Some(BufferSizes { outgoing_buf: 1024, incoming_buf: 2048 })
    );
}

#[test]
fn listener_stop_leaves_barrier_untouched() {
    let mut barrier = Barrier::build(1_000_000_000, 1).unwrap();
    assert!(matches!(on_listener_event(&mut barrier, ListenerEvent::Shutdown), AcceptAction::Stop));
    assert!(matches!(on_listener_event(&mut barrier, ListenerEvent::Accepted), AcceptAction::Serve));
}
