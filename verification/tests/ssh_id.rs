use bridge_core::error::ErrorKind;
use bridge_core::ssh_id::{SshId, MAX_ID_LEN};

fn framed(label_len: usize) -> Vec<u8> {
    let mut bytes = b"SSH-2.0-".to_vec();
    bytes.extend(std::iter::repeat(b'x').take(label_len));
    bytes.extend_from_slice(b"\r\n");
    bytes
}

#[test]
fn parses_an_openssh_banner() {
    let id = SshId::from_bytes(b"SSH-2.0-OpenSSH_9.0\r\n").unwrap();
    assert_eq!(id.buf(), b"SSH-2.0-OpenSSH_9.0\r\n");
    assert_eq!(id.buf_trimmed(), b"SSH-2.0-OpenSSH_9.0");
}

#[test]
fn rejects_a_banner_without_the_prefix() {
    let error = SshId::from_bytes(b"NOT-SSH-BANNER\r\n").unwrap_err();
    assert_eq!(error.kind(), ErrorKind::InvalidIdentification);
    assert_eq!(error.message(), "invalid id string");
}

#[test]
fn rejects_a_banner_without_the_terminator() {
    let inputs: [&[u8]; 5] = [
        b"SSH-2.0-OpenSSH_9.0",
        b"SSH-2.0-OpenSSH_9.0\n",
        b"SSH-2.0-OpenSSH_9.0\r",
        b"SSH-2.0-OpenSSH_9.0\n\r",
        b"SSH-2.0-OpenSSH_9.0\r\n ",
    ];
    for input in inputs {
        let error = SshId::from_bytes(input).unwrap_err();
        assert_eq!(error.kind(), ErrorKind::InvalidIdentification);
    }
}

#[test]
fn rejects_what_is_too_short_to_hold_both_ends() {
    let inputs: [&[u8]; 6] = [b"", b"S", b"\r\n", b"SSH-2.0", b"SSH-2.0-", b"SSH-2.0\r\n"];
    for input in inputs {
        let error = SshId::from_bytes(input).unwrap_err();
        assert_eq!(error.kind(), ErrorKind::InvalidIdentification);
    }
}

#[test]
fn rejects_another_protocol_version() {
    assert!(SshId::from_bytes(b"SSH-1.5-OpenSSH_9.0\r\n").is_err());
    assert!(SshId::from_bytes(b"ssh-2.0-OpenSSH_9.0\r\n").is_err());
    assert!(SshId::from_bytes(b" SSH-2.0-OpenSSH_9.0\r\n").is_err());
}

#[test]
fn accepts_the_shortest_banner() {
    let id = SshId::from_bytes(b"SSH-2.0-\r\n").unwrap();
    assert_eq!(id.buf(), b"SSH-2.0-\r\n");
    assert_eq!(id.buf_trimmed(), b"SSH-2.0-");
}

#[test]
fn accepts_up_to_the_length_limit_and_no_more() {
    assert_eq!(MAX_ID_LEN, 255);
    let longest = framed(245);
    assert_eq!(longest.len(), 255);
    let id = SshId::from_bytes(&longest).unwrap();
    assert_eq!(id.buf(), &longest[..]);
    assert_eq!(id.buf_trimmed(), &longest[..253]);

    let too_long = framed(246);
    assert_eq!(too_long.len(), 256);
    let error = SshId::from_bytes(&too_long).unwrap_err();
    assert_eq!(error.kind(), ErrorKind::InvalidIdentification);
}

#[test]
fn keeps_bytes_that_are_not_text() {
    let input = b"SSH-2.0-\xff\x00\r\n\r\n";
    let id = SshId::from_bytes(input).unwrap();
    assert_eq!(id.buf(), input);
    assert_eq!(id.buf_trimmed(), b"SSH-2.0-\xff\x00\r\n");
}

#[test]
fn builds_the_server_banner() {
    let id = SshId::new("BridgeSSH_v0.1.0");
    assert_eq!(id.buf(), b"SSH-2.0-BridgeSSH_v0.1.0\r\n");
    assert_eq!(id.buf_trimmed(), b"SSH-2.0-BridgeSSH_v0.1.0");
}

#[test]
fn builds_a_banner_with_an_empty_label() {
    let id = SshId::new("");
    assert_eq!(id.buf(), b"SSH-2.0-\r\n");
    assert_eq!(id.buf_trimmed(), b"SSH-2.0-");
}

#[test]
fn builds_a_banner_from_the_bytes_of_the_label() {
    let id = SshId::new("caf\u{e9}");
    assert_eq!(id.buf(), b"SSH-2.0-caf\xc3\xa9\r\n");
}

#[test]
fn builds_the_longest_banner() {
    let label = "y".repeat(245);
    let id = SshId::new(&label);
    assert_eq!(id.buf().len(), 255);
    assert_eq!(&id.buf()[..8], b"SSH-2.0-");
    assert_eq!(&id.buf()[8..253], label.as_bytes());
    assert_eq!(&id.buf()[253..], b"\r\n");
}

#[test]
fn a_built_banner_parses_as_itself() {
    let built = SshId::new("BridgeSSH_v0.1.0");
    let parsed = SshId::from_bytes(built.buf()).unwrap();
    assert_eq!(parsed.buf(), built.buf());
    assert_eq!(parsed.buf_trimmed(), built.buf_trimmed());
}

#[test]
fn trimming_takes_off_the_terminator_only() {
    for label in ["", "a", "OpenSSH_9.0 comment with spaces", "x\r\ny"] {
        let id = SshId::new(label);
        let mut again = id.buf_trimmed().to_vec();
        again.extend_from_slice(b"\r\n");
        assert_eq!(again, id.buf());
    }
}
