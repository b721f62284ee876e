use tftpd::chunks::split_chunks;
use tftpd::download::{DownloadEngine, DownloadEvent, DownloadStep};
use tftpd::upload::{UploadEngine, UploadEvent, UploadStep};

fn ack(block: u16) -> Vec<u8> {
    let mut v = vec![0u8, 4];
    v.extend_from_slice(&block.to_be_bytes());
    v
}

fn data_packet(block: u16, payload: &[u8]) -> Vec<u8> {
    let mut v = vec![0u8, 3];
    v.extend_from_slice(&block.to_be_bytes());
    v.extend_from_slice(payload);
    v
}

fn ack_event(block: u16) -> UploadEvent {
    UploadEvent::Datagram { from_peer: true, data: ack(block) }
}

/// Drives a whole upload over a perfect link and returns the payloads
/// sent, in order.
fn upload_payloads(file: &[u8]) -> (Vec<Vec<u8>>, u64) {
    let mut engine = UploadEngine::new();
    let mut sent = Vec::new();
    for chunk in split_chunks(file) {
        let block = engine.block;
        let (packet, _timeout) = engine.begin_block(&chunk);
        assert_eq!(&packet[..2], &[0, 3]);
        assert_eq!(&packet[2..4], &block.to_be_bytes());
        sent.push(packet[4..].to_vec());
        match engine.on_event(&ack_event(block)) {
            UploadStep::Accepted { more } => assert_eq!(more, chunk.len() == 512),
            _ => panic!("a matching acknowledgment must be accepted"),
        }
    }
    (sent, engine.bytes_sent)
}

/// Feeds payloads to a download engine in order and returns the bytes it
/// said to write.
fn download_file(payloads: &[Vec<u8>]) -> (Vec<u8>, u64) {
    let mut engine = DownloadEngine::new();
    assert_eq!(engine.initial_ack(), vec![0, 4, 0, 0]);
    let mut written = Vec::new();
    let mut block: u16 = 1;
    for payload in payloads {
        let expected = engine.expected_block;
        assert_eq!(expected, block);
        let ev = DownloadEvent::Datagram { from_peer: true, data: data_packet(block, payload) };
        match engine.on_event(ev) {
            DownloadStep::Write { payload: out, ack: a, last } => {
                assert_eq!(&out, payload);
                assert_eq!(a, ack(expected));
                assert_eq!(last, payload.len() < 512);
                written.extend_from_slice(&out);
            },
            _ => panic!("the expected block must be written"),
        }
        block = block.wrapping_add(1);
    }
    (written, engine.bytes_received)
}

#[test]
fn upload_block_counts_follow_the_file_size() {
    // n/512 blocks plus the short terminal block; an exact multiple gets
    // an empty terminal block.
    for (n, blocks) in [
        (0usize, 1usize),
        (1, 1),
        (511, 1),
        (512, 2),
        (513, 2),
        (600, 2),
        (1024, 3),
        (1536, 4),
    ] {
        let file = vec![7u8; n];
        assert_eq!(split_chunks(&file).len(), blocks);
        let (sent, bytes) = upload_payloads(&file);
        assert_eq!(sent.len(), blocks);
        assert_eq!(bytes, n as u64);
    }
}

#[test]
fn empty_file_still_sends_one_terminal_block() {
    let (sent, bytes) = upload_payloads(&[]);
    assert_eq!(sent, vec![Vec::<u8>::new()]);
    assert_eq!(bytes, 0);
}

#[test]
fn round_trip_preserves_the_bytes() {
    let file: Vec<u8> = (0..1300u32).map(|i| (i * 31 % 251) as u8).collect();
    let (sent, sent_bytes) = upload_payloads(&file);
    let (stored, stored_bytes) = download_file(&sent);
    assert_eq!(stored, file);
    assert_eq!(sent_bytes, 1300);
    assert_eq!(stored_bytes, 1300);
}

#[test]
fn six_hundred_byte_read_goes_out_as_two_blocks() {
    // 600 bytes from the served file: DATA{block=1} with 512 bytes, then
    // DATA{block=2} with 88 bytes, each acknowledged; 600 bytes reported.
    let file = vec![9u8; 600];
    let mut engine = UploadEngine::new();
    let chunks = split_chunks(&file);
    assert_eq!(chunks.len(), 2);

    let (packet, timeout) = engine.begin_block(&chunks[0]);
    assert_eq!(timeout, 1000);
    assert_eq!(&packet[..4], &[0, 3, 0, 1]);
    assert_eq!(packet.len(), 4 + 512);
    assert!(matches!(engine.on_event(&ack_event(1)), UploadStep::Accepted { more: true }));

    let (packet, _) = engine.begin_block(&chunks[1]);
    assert_eq!(&packet[..4], &[0, 3, 0, 2]);
    assert_eq!(packet.len(), 4 + 88);
    assert!(matches!(engine.on_event(&ack_event(2)), UploadStep::Accepted { more: false }));

    assert_eq!(engine.bytes_sent, 600);
}

#[test]
fn duplicate_ack_keeps_the_upload_waiting() {
    let file = vec![1u8; 700];
    let mut engine = UploadEngine::new();
    let chunks = split_chunks(&file);
    let (_p, _t) = engine.begin_block(&chunks[0]);
    assert!(matches!(engine.on_event(&ack_event(1)), UploadStep::Accepted { .. }));
    let (_p, _t) = engine.begin_block(&chunks[1]);
    // The peer repeats its acknowledgment of block 1: ignored.
    assert!(matches!(engine.on_event(&ack_event(1)), UploadStep::KeepWaiting));
    assert_eq!(engine.block, 2);
    assert_eq!(engine.retries, 0);
    assert!(matches!(engine.on_event(&ack_event(2)), UploadStep::Accepted { .. }));
}

#[test]
fn wrong_acks_and_timeouts_exhaust_the_upload_budget() {
    let file = vec![1u8; 10];
    let mut engine = UploadEngine::new();
    let chunks = split_chunks(&file);
    let (_p, _t) = engine.begin_block(&chunks[0]);
    // Wrong block, wrong opcode, foreign peer, timeout: all eat budget.
    let wrong_block = UploadEvent::Datagram { from_peer: true, data: ack(9) };
    let wrong_opcode = UploadEvent::Datagram { from_peer: true, data: data_packet(1, b"x") };
    let foreign = UploadEvent::Datagram { from_peer: false, data: ack(1) };
    let mut resends = 0;
    for ev in [&wrong_block, &wrong_opcode, &foreign, &UploadEvent::TimedOut] {
        match engine.on_event(ev) {
            UploadStep::Resend { timeout_ms } => {
                resends += 1;
                assert_eq!(timeout_ms, calculate(resends));
            },
            _ => panic!("budget not yet exhausted"),
        }
    }
    for _ in 0..3 {
        assert!(matches!(engine.on_event(&UploadEvent::TimedOut), UploadStep::Resend { .. }));
    }
    // The eighth failure exhausts MAX_RETRIES.
    assert!(matches!(engine.on_event(&UploadEvent::TimedOut), UploadStep::Abort));
}

fn calculate(retry: u64) -> u64 {
    tftpd::timeout::calculate_timeout(retry as usize)
}

#[test]
fn block_numbers_wrap_past_65535() {
    // A transfer longer than 65535 * 512 bytes wraps its block numbers
    // through 0 and keeps matching acknowledgments modulo 65536.
    let chunk = vec![0u8; 512];
    let mut engine = UploadEngine::new();
    assert_eq!(engine.block, 1);
    for _ in 0..70000u32 {
        let block = engine.block;
        let (_packet, _timeout) = engine.begin_block(&chunk);
        match engine.on_event(&ack_event(block)) {
            UploadStep::Accepted { more: true } => {},
            _ => panic!("full blocks continue the transfer"),
        }
        assert_eq!(engine.block, block.wrapping_add(1));
    }
    // Blocks 1..=65535, then 0, then upward again.
    assert_eq!(engine.block, (70000 % 65536 + 1) as u16);
    assert_eq!(engine.bytes_sent, 70000u64 * 512);
}

#[test]
fn download_accepts_blocks_in_wraparound_order() {
    let chunk = vec![0u8; 512];
    let mut engine = DownloadEngine::new();
    for _ in 0..66000u32 {
        let block = engine.expected_block;
        let ev = DownloadEvent::Datagram { from_peer: true, data: data_packet(block, &chunk) };
        match engine.on_event(ev) {
            DownloadStep::Write { last: false, .. } => {},
            _ => panic!("full blocks continue the transfer"),
        }
        assert_eq!(engine.expected_block, block.wrapping_add(1));
    }
    assert_eq!(engine.bytes_received, 66000u64 * 512);
}

#[test]
fn replayed_block_is_acknowledged_but_not_rewritten() {
    // The idempotent-replay rule: a DATA block the engine already
    // accepted retriggers the previous acknowledgment and nothing else.
    let mut engine = DownloadEngine::new();
    let payload = vec![5u8; 512];
    let ev = DownloadEvent::Datagram { from_peer: true, data: data_packet(1, &payload) };
    assert!(matches!(engine.on_event(ev), DownloadStep::Write { .. }));
    assert_eq!(engine.expected_block, 2);
    assert_eq!(engine.bytes_received, 512);

    let replay = DownloadEvent::Datagram { from_peer: true, data: data_packet(1, &payload) };
    match engine.on_event(replay) {
        DownloadStep::ResendAck { ack: a } => assert_eq!(a, ack(1)),
        _ => panic!("a replay must only re-acknowledge"),
    }
    assert_eq!(engine.expected_block, 2);
    assert_eq!(engine.bytes_received, 512);
}

#[test]
fn stale_blocks_and_foreign_datagrams_are_ignored() {
    let mut engine = DownloadEngine::new();
    let payload = vec![5u8; 512];
    for b in 1..=3u16 {
        let ev = DownloadEvent::Datagram { from_peer: true, data: data_packet(b, &payload) };
        assert!(matches!(engine.on_event(ev), DownloadStep::Write { .. }));
    }
    // Two blocks stale: ignored, no re-acknowledgment.
    let stale = DownloadEvent::Datagram { from_peer: true, data: data_packet(2, &payload) };
    assert!(matches!(engine.on_event(stale), DownloadStep::Ignore));
    // Foreign peer: ignored.
    let foreign = DownloadEvent::Datagram { from_peer: false, data: data_packet(4, &payload) };
    assert!(matches!(engine.on_event(foreign), DownloadStep::Ignore));
    // Too short to carry a block number: ignored.
    let short = DownloadEvent::Datagram { from_peer: true, data: vec![0, 3] };
    assert!(matches!(engine.on_event(short), DownloadStep::Ignore));
    assert_eq!(engine.expected_block, 4);
    assert_eq!(engine.bytes_received, 3 * 512);
}

#[test]
fn peer_error_aborts_the_download() {
    let mut engine = DownloadEngine::new();
    let mut packet = vec![0u8, 5, 0, 3];
    packet.extend_from_slice(b"disk full");
    packet.push(0);
    let ev = DownloadEvent::Datagram { from_peer: true, data: packet };
    match engine.on_event(ev) {
        DownloadStep::PeerFailure { code, message } => {
            assert_eq!(code, 3);
            assert_eq!(message, b"disk full");
        },
        _ => panic!("a peer error must abort"),
    }
}

#[test]
fn peer_error_without_terminator_is_still_read_whole() {
    let mut engine = DownloadEngine::new();
    let mut packet = vec![0u8, 5, 0, 8];
    packet.extend_from_slice(b"oops");
    let ev = DownloadEvent::Datagram { from_peer: true, data: packet };
    match engine.on_event(ev) {
        DownloadStep::PeerFailure { code, message } => {
            assert_eq!(code, 8);
            assert_eq!(message, b"oops");
        },
        _ => panic!("a peer error must abort"),
    }
}

#[test]
fn bare_error_packet_has_an_empty_message() {
    let mut engine = DownloadEngine::new();
    let ev = DownloadEvent::Datagram { from_peer: true, data: vec![0, 5, 0, 2] };
    match engine.on_event(ev) {
        DownloadStep::PeerFailure { code, message } => {
            assert_eq!(code, 2);
            assert!(message.is_empty());
        },
        _ => panic!("a peer error must abort"),
    }
}

#[test]
fn consecutive_timeouts_abort_the_download() {
    let mut engine = DownloadEngine::new();
    assert_eq!(engine.initial_timeout_ms(), 2000);
    for n in 1..=7u64 {
        match engine.on_event(DownloadEvent::TimedOut) {
            DownloadStep::SetTimeout { timeout_ms } => {
                assert_eq!(timeout_ms, calculate(n));
            },
            _ => panic!("budget not yet exhausted"),
        }
    }
    assert!(matches!(engine.on_event(DownloadEvent::TimedOut), DownloadStep::Abort));
}

#[test]
fn peer_activity_resets_the_timeout_run() {
    let mut engine = DownloadEngine::new();
    for _ in 0..5 {
        assert!(matches!(engine.on_event(DownloadEvent::TimedOut), DownloadStep::SetTimeout { .. }));
    }
    // Any well-formed datagram from the peer counts as link activity.
    let noise = DownloadEvent::Datagram { from_peer: true, data: vec![0, 4, 0, 0] };
    assert!(matches!(engine.on_event(noise), DownloadStep::Ignore));
    assert_eq!(engine.consecutive_timeouts, 0);
}

#[test]
fn terminal_block_completes_the_download() {
    let mut engine = DownloadEngine::new();
    let full = DownloadEvent::Datagram { from_peer: true, data: data_packet(1, &[1u8; 512]) };
    assert!(matches!(engine.on_event(full), DownloadStep::Write { last: false, .. }));
    let short = DownloadEvent::Datagram { from_peer: true, data: data_packet(2, &[1u8; 88]) };
    assert!(matches!(engine.on_event(short), DownloadStep::Write { last: true, .. }));
    assert_eq!(engine.bytes_received, 600);
}
