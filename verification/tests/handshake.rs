use sync_mesh_core::backend::{
    poll_handshake, BackendError, HandshakePoll, HandshakeRead, ProcessBackend,
    HANDSHAKE_POLL_INTERVAL_MILLIS, HANDSHAKE_TIMEOUT_SECS,
};
use sync_mesh_core::handshake::{endpoint_for_port, HandshakeInfo, HANDSHAKE_FILE_NAME};

#[test]
fn endpoint_names_the_port_in_decimal() {
    assert_eq!(endpoint_for_port(50051), "http://127.0.0.1:50051");
    assert_eq!(endpoint_for_port(0), "http://127.0.0.1:0");
    assert_eq!(endpoint_for_port(7), "http://127.0.0.1:7");
    assert_eq!(endpoint_for_port(10), "http://127.0.0.1:10");
    assert_eq!(endpoint_for_port(65535), "http://127.0.0.1:65535");
}

#[test]
fn handshake_endpoint_uses_its_port() {
    let info = HandshakeInfo { grpc_port: 40123, pid: 99 };
    assert_eq!(info.grpc_endpoint(), "http://127.0.0.1:40123");
}

#[test]
fn distinct_ports_give_distinct_endpoints() {
    let mut seen = std::collections::HashSet::new();
    for port in 0..=u16::MAX {
        assert!(seen.insert(endpoint_for_port(port)));
    }
}

#[test]
fn ready_handshake_is_reachable_whatever_the_time() {
    for deadline_passed in [false, true] {
        let read = HandshakeRead::Ready(HandshakeInfo { grpc_port: 8080, pid: 1 });
        match poll_handshake(read, deadline_passed) {
            HandshakePoll::Reachable(url) => assert_eq!(url, "http://127.0.0.1:8080"),
            _ => panic!("a parsed handshake must give the endpoint"),
        }
    }
}

#[test]
fn malformed_handshake_is_a_parse_error() {
    for deadline_passed in [false, true] {
        let read = HandshakeRead::Malformed("expected value".to_string());
        match poll_handshake(read, deadline_passed) {
            HandshakePoll::Failed(BackendError::HandshakeParse(message)) => {
                assert_eq!(message, "expected value")
            }
            _ => panic!("a malformed handshake must give a parse error"),
        }
    }
}

#[test]
fn missing_handshake_waits_until_the_deadline() {
    assert!(matches!(poll_handshake(HandshakeRead::Missing, false), HandshakePoll::Wait));
    assert!(matches!(
        poll_handshake(HandshakeRead::Missing, true),
        HandshakePoll::Failed(BackendError::HandshakeTimeout)
    ));
}

#[test]
fn waiting_constants() {
    assert_eq!(HANDSHAKE_TIMEOUT_SECS, 5);
    assert_eq!(HANDSHAKE_POLL_INTERVAL_MILLIS, 50);
    assert_eq!(HANDSHAKE_FILE_NAME, "daemon.json");
}

#[test]
fn process_backend_keeps_its_binary() {
    let backend = ProcessBackend::new("/usr/bin/sync-mesh-daemon");
    assert_eq!(
        backend.daemon_binary(),
        &std::path::PathBuf::from("/usr/bin/sync-mesh-daemon")
    );
}
