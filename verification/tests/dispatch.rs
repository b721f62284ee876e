use tftpd::packet::build_error_packet;
use tftpd::protocol::TftpError;
use tftpd::server::{check_upload_target, DispatchOutcome, TFTPServer};

fn server() -> TFTPServer {
    TFTPServer::new(6969, vec![b"srv".to_vec(), b"tftp".to_vec()])
}

fn request(opcode: u16, filename: &str, mode: &str) -> Vec<u8> {
    let mut data = Vec::new();
    data.extend_from_slice(&opcode.to_be_bytes());
    data.extend_from_slice(filename.as_bytes());
    data.push(0);
    data.extend_from_slice(mode.as_bytes());
    data.push(0);
    data
}

#[test]
fn parse_request_reads_filename_and_mode() {
    let s = server();
    let body = b"report.txt\0octet\0";
    let (filename, mode) = s.parse_request(body).unwrap();
    assert_eq!(filename, "report.txt");
    assert_eq!(mode, "octet");
}

#[test]
fn parse_request_skips_empty_fields() {
    let s = server();
    let body = b"\0\0a.txt\0\0netascii\0";
    let (filename, mode) = s.parse_request(body).unwrap();
    assert_eq!(filename, "a.txt");
    assert_eq!(mode, "netascii");
}

#[test]
fn parse_request_ignores_bytes_after_the_second_field() {
    let s = server();
    let body = b"a\0octet\0trailing-junk";
    let (filename, mode) = s.parse_request(body).unwrap();
    assert_eq!(filename, "a");
    assert_eq!(mode, "octet");
}

#[test]
fn parse_request_wants_two_terminated_fields() {
    let s = server();
    assert!(matches!(s.parse_request(b""), Err(TftpError::MalformedRequest)));
    assert!(matches!(s.parse_request(b"name-only\0"), Err(TftpError::MalformedRequest)));
    assert!(matches!(s.parse_request(b"name\0unterminated"), Err(TftpError::MalformedRequest)));
}

#[test]
fn parse_request_rejects_non_ascii_fields() {
    let s = server();
    let body = [0xC3u8, 0xA9, 0, b'o', b'c', b't', b'e', b't', 0];
    assert!(matches!(s.parse_request(&body), Err(TftpError::MalformedRequest)));
}

#[test]
fn read_request_is_dispatched_to_the_upload_engine() {
    let s = server();
    let data = request(1, "report.txt", "octet");
    match s.handle_request(&data) {
        DispatchOutcome::StartUpload { filename, mode, path } => {
            assert_eq!(filename, "report.txt");
            assert_eq!(mode, "octet");
            assert_eq!(path, vec![b"srv".to_vec(), b"tftp".to_vec(), b"report.txt".to_vec()]);
        },
        _ => panic!("expected an upload"),
    }
}

#[test]
fn write_request_is_dispatched_to_the_download_engine() {
    let s = server();
    let data = request(2, "incoming.bin", "octet");
    match s.handle_request(&data) {
        DispatchOutcome::StartDownload { filename, mode, path } => {
            assert_eq!(filename, "incoming.bin");
            assert_eq!(mode, "octet");
            assert_eq!(path, vec![b"srv".to_vec(), b"tftp".to_vec(), b"incoming.bin".to_vec()]);
        },
        _ => panic!("expected a download"),
    }
}

#[test]
fn short_datagram_is_malformed() {
    let s = server();
    assert!(matches!(
        s.handle_request(&[3]),
        DispatchOutcome::Reject { error: TftpError::MalformedRequest }
    ));
    assert!(matches!(
        s.handle_request(&[]),
        DispatchOutcome::Reject { error: TftpError::MalformedRequest }
    ));
}

#[test]
fn foreign_opcode_is_an_illegal_operation() {
    let s = server();
    let data = request(5, "x", "octet");
    assert!(matches!(
        s.handle_request(&data),
        DispatchOutcome::Reject { error: TftpError::IllegalOperation }
    ));
}

#[test]
fn write_request_escaping_the_root_is_an_access_violation() {
    // A write request for "../secret" is answered with error code 2 and
    // no transfer starts, so nothing is created or modified.
    let s = server();
    let data = request(2, "../secret", "octet");
    match s.handle_request(&data) {
        DispatchOutcome::Reject { error } => {
            assert_eq!(error.wire_code(), Some(2));
            let packet = build_error_packet(2, b"Access violation");
            assert_eq!(packet[0..4], [0, 5, 0, 2]);
        },
        _ => panic!("the escape must be rejected"),
    }
}

#[test]
fn read_request_escaping_the_root_is_an_access_violation() {
    let s = server();
    let data = request(1, "../../etc/passwd", "octet");
    match s.handle_request(&data) {
        DispatchOutcome::Reject { error } => assert_eq!(error.wire_code(), Some(2)),
        _ => panic!("the escape must be rejected"),
    }
}

#[test]
fn read_request_with_a_broken_body_is_malformed() {
    let s = server();
    let mut data = vec![0u8, 1];
    data.extend_from_slice(b"only-a-filename\0");
    assert!(matches!(
        s.handle_request(&data),
        DispatchOutcome::Reject { error: TftpError::MalformedRequest }
    ));
}

#[test]
fn error_codes_follow_the_protocol() {
    assert_eq!(TftpError::MalformedRequest.wire_code(), Some(4));
    assert_eq!(TftpError::IllegalOperation.wire_code(), Some(4));
    assert_eq!(TftpError::AccessViolation.wire_code(), Some(2));
    assert_eq!(TftpError::NotFound.wire_code(), Some(1));
    assert_eq!(TftpError::NetworkTimeout.wire_code(), None);
    assert_eq!(TftpError::PeerError { code: 7, message: Vec::new() }.wire_code(), None);
}

#[test]
fn error_packets_carry_code_and_terminated_message() {
    let packet = build_error_packet(1, b"File not found");
    let mut expected = vec![0u8, 5, 0, 1];
    expected.extend_from_slice(b"File not found");
    expected.push(0);
    assert_eq!(packet, expected);
}

#[test]
fn missing_target_is_not_found() {
    assert!(check_upload_target(true, true).is_ok());
    assert!(matches!(check_upload_target(false, true), Err(TftpError::NotFound)));
    assert!(matches!(check_upload_target(true, false), Err(TftpError::NotFound)));
}
