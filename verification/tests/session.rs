use bridge_core::error::{Error, ErrorKind};
use bridge_core::session::{ExchangeStep, Session};
use bridge_core::ssh_id::SshId;

fn broken() -> std::io::Error {
    std::io::Error::new(std::io::ErrorKind::BrokenPipe, "gone")
}

#[test]
fn the_exchange_sends_the_server_banner_first() {
    let server = SshId::new("BridgeSSH_v0.1.0");
    let ExchangeStep::Send { banner, .. } = ExchangeStep::start(&server) else {
        panic!("the exchange begins by sending");
    };
    assert_eq!(banner, b"SSH-2.0-BridgeSSH_v0.1.0\r\n");
}

#[test]
fn the_exchange_reads_once_the_banner_is_sent() {
    let server = SshId::new("BridgeSSH_v0.1.0");
    let ExchangeStep::Send { request, .. } = ExchangeStep::start(&server) else {
        panic!("the exchange begins by sending");
    };
    let ExchangeStep::Receive { capacity, .. } = request.sent() else {
        panic!("the peer's banner is read next");
    };
    assert_eq!(capacity, 255);
}

#[test]
fn the_exchange_is_established_by_a_well_formed_banner() {
    let server = SshId::new("BridgeSSH_v0.1.0");
    let ExchangeStep::Send { request, .. } = ExchangeStep::start(&server) else {
        panic!("the exchange begins by sending");
    };
    let ExchangeStep::Receive { request, .. } = request.sent() else {
        panic!("the peer's banner is read next");
    };
    let ExchangeStep::Established { session } = request.received(b"SSH-2.0-OpenSSH_9.0\r\n") else {
        panic!("the exchange is established");
    };
    assert_eq!(session.ssh_id().buf(), b"SSH-2.0-OpenSSH_9.0\r\n");
    assert_eq!(session.ssh_id().buf_trimmed(), b"SSH-2.0-OpenSSH_9.0");
}

#[test]
fn the_exchange_is_rejected_by_anything_else() {
    let inputs: [&[u8]; 4] = [b"", b"NOT-SSH-BANNER\r\n", b"SSH-2.0-OpenSSH_9.0", b"GET / HTTP/1.1\r\n"];
    for input in inputs {
        let server = SshId::new("BridgeSSH_v0.1.0");
        let ExchangeStep::Send { request, .. } = ExchangeStep::start(&server) else {
            panic!("the exchange begins by sending");
        };
        let ExchangeStep::Receive { request, .. } = request.sent() else {
            panic!("the peer's banner is read next");
        };
        let ExchangeStep::Rejected { error } = request.received(input) else {
            panic!("the exchange is rejected");
        };
        assert_eq!(error.kind(), ErrorKind::InvalidIdentification);
        assert!(matches!(error, Error::InvalidIdentification));
    }
}

#[test]
fn the_exchange_is_closed_by_a_failed_write() {
    let server = SshId::new("BridgeSSH_v0.1.0");
    let ExchangeStep::Send { request, .. } = ExchangeStep::start(&server) else {
        panic!("the exchange begins by sending");
    };
    let ExchangeStep::Closed { error } = request.failed(broken()) else {
        panic!("the exchange is closed");
    };
    assert_eq!(error.kind(), ErrorKind::Io);
    assert!(matches!(error, Error::FileWriteError(e) if e.kind() == std::io::ErrorKind::BrokenPipe));
}

#[test]
fn the_exchange_is_closed_by_a_failed_read() {
    let server = SshId::new("BridgeSSH_v0.1.0");
    let ExchangeStep::Send { request, .. } = ExchangeStep::start(&server) else {
        panic!("the exchange begins by sending");
    };
    let ExchangeStep::Receive { request, .. } = request.sent() else {
        panic!("the peer's banner is read next");
    };
    let ExchangeStep::Closed { error } = request.failed(broken()) else {
        panic!("the exchange is closed");
    };
    assert_eq!(error.kind(), ErrorKind::Io);
}

#[test]
fn a_session_holds_the_peer_banner() {
    let session = Session::new(SshId::from_bytes(b"SSH-2.0-peer\r\n").unwrap());
    assert_eq!(session.ssh_id().buf(), b"SSH-2.0-peer\r\n");
}
