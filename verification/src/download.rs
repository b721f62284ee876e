//! The download engine: receives a file from the peer, acknowledging one
//! data block at a time.
//!
//! The engine decides; the transfer task moves datagrams and writes the
//! destination file. The engine authorizes the peer with the initial
//! acknowledgment of block 0, accepts data blocks in strict 16-bit
//! wraparound order, answers a retransmit of the block it just accepted
//! by repeating the acknowledgment without touching the file, and gives
//! up after a bounded run of consecutive timeouts. The ghost `received`
//! sequence models the destination file: exactly the accepted payloads,
//! in order.

use vstd::prelude::*;

use crate::packet::{
    build_ack_packet, error_message_of, is_data_for, is_error_packet, packet_block,
    spec_ack_packet, spec_wrap_dec, spec_wrap_inc, wrap_dec, wrap_inc,
};
use crate::protocol::{INITIAL_TIMEOUT_MS, MAX_RETRIES, OPCODE_DATA, OPCODE_ERROR, PACKET_SIZE};
use crate::timeout::{calculate_timeout_u64, spec_timeout_ms};

verus! {

/// Where one download stands.
pub enum DownloadPhase {
    /// The engine waits for the next data block.
    Receiving,
    /// The terminal block was acknowledged; the transfer succeeded.
    Complete,
    /// The peer aborted, or the timeout budget ran out.
    Failed,
}

/// What the transfer task observed while waiting for a data block.
pub enum DownloadEvent {
    /// A datagram arrived; `from_peer` says whether its source address is
    /// the transfer's peer.
    Datagram { from_peer: bool, data: Vec<u8> },
    /// The wait expired with nothing received.
    TimedOut,
}

/// What the transfer task must do next.
pub enum DownloadStep {
    /// The expected block arrived: append `payload` to the destination
    /// file and send `ack`. When `last` holds the block was terminal and
    /// the transfer is complete.
    Write { payload: Vec<u8>, ack: Vec<u8>, last: bool },
    /// The peer retransmitted the block just accepted (its
    /// acknowledgment was lost): send `ack` again, write nothing.
    ResendAck { ack: Vec<u8> },
    /// The datagram was foreign, short, stale or of no interest: do
    /// nothing and keep waiting.
    Ignore,
    /// The peer aborted the transfer with its own error packet.
    PeerFailure { code: u16, message: Vec<u8> },
    /// Keep waiting, now for `timeout_ms` milliseconds.
    SetTimeout { timeout_ms: u64 },
    /// Too many consecutive timeouts: abort the transfer.
    Abort,
}

/// Whether the event is a datagram from the peer long enough to carry an
/// opcode and a block number. Only such datagrams count as link
/// activity.
pub open spec fn relevant_datagram(ev: &DownloadEvent) -> bool {
    match ev {
        DownloadEvent::Datagram { from_peer, data } => *from_peer && data@.len() >= 4,
        DownloadEvent::TimedOut => false,
    }
}

/// Whether the event carries the data block the engine expects.
pub open spec fn carries_expected(ev: &DownloadEvent, expected: u16) -> bool {
    match ev {
        DownloadEvent::Datagram { from_peer, data } => *from_peer && is_data_for(data@, expected),
        DownloadEvent::TimedOut => false,
    }
}

/// Whether the event is a retransmit of the block just accepted.
pub open spec fn carries_previous(ev: &DownloadEvent, expected: u16) -> bool {
    carries_expected(ev, spec_wrap_dec(expected))
}

/// Whether the event is an error packet from the peer.
pub open spec fn carries_error(ev: &DownloadEvent) -> bool {
    match ev {
        DownloadEvent::Datagram { from_peer, data } => *from_peer && is_error_packet(data@),
        DownloadEvent::TimedOut => false,
    }
}

/// The payload bytes the event would append.
pub open spec fn event_payload(ev: &DownloadEvent) -> Seq<u8> {
    match ev {
        DownloadEvent::Datagram { from_peer: _, data } => data@.skip(4),
        DownloadEvent::TimedOut => Seq::empty(),
    }
}

/// Room in the byte counter for whatever the event could append.
pub open spec fn byte_counter_has_room(ev: &DownloadEvent, bytes_received: u64) -> bool {
    match ev {
        DownloadEvent::Datagram { from_peer: _, data } => bytes_received + data@.len()
            <= u64::MAX,
        DownloadEvent::TimedOut => true,
    }
}

pub struct DownloadEngine {
    /// Block number the engine will accept next. Starts at 1 and wraps at
    /// 65536.
    pub expected_block: u16,
    /// Bytes of all accepted blocks so far.
    pub bytes_received: u64,
    /// Consecutive timeout expiries since the last datagram from the
    /// peer.
    pub consecutive_timeouts: u64,
    pub phase: DownloadPhase,
    /// Model of the destination file: the accepted payloads, in order.
    pub received: Ghost<Seq<u8>>,
}

impl DownloadEngine {
    /// The engine's housekeeping invariant: the byte counter counts
    /// exactly the modeled file, and the timeout budget stays inside its
    /// bound.
    pub open spec fn wf(&self) -> bool {
        &&& self.received@.len() == self.bytes_received
        &&& self.consecutive_timeouts <= MAX_RETRIES
        &&& (self.phase is Receiving ==> self.consecutive_timeouts < MAX_RETRIES)
    }

    /// A fresh download: nothing received, block 1 expected next.
    pub fn new() -> (r: Self)
        ensures
            r.expected_block == 1,
            r.bytes_received == 0,
            r.consecutive_timeouts == 0,
            r.phase is Receiving,
            r.received@ == Seq::<u8>::empty(),
            r.wf(),
    {
        DownloadEngine {
            expected_block: 1,
            bytes_received: 0,
            consecutive_timeouts: 0,
            phase: DownloadPhase::Receiving,
            received: Ghost(Seq::empty()),
        }
    }

    /// The acknowledgment of block 0 that authorizes the peer to send
    /// block 1. It must be sent before the first wait.
    pub fn initial_ack(&self) -> (r: Vec<u8>)
        ensures
            r@ == spec_ack_packet(0),
    {
        build_ack_packet(0)
    }

    /// The wait before the first data block, in milliseconds: twice the
    /// initial per-retry wait, giving the peer room to set up.
    pub fn initial_timeout_ms(&self) -> (r: u64)
        ensures
            r == 2 * INITIAL_TIMEOUT_MS,
    {
        INITIAL_TIMEOUT_MS * 2
    }

    /// Judges one event observed while waiting for a data block.
    ///
    /// The expected block is written and acknowledged, and the transfer
    /// completes exactly when its payload is shorter than a full block.
    /// A retransmit of the block just accepted only repeats the previous
    /// acknowledgment: the file and the expected block number stay as
    /// they are. An error packet from the peer fails the transfer with
    /// the peer's code and message. Anything else from the peer is
    /// ignored (a datagram more than one block stale changes nothing and
    /// is not re-acknowledged). Timeouts lengthen the next wait until
    /// their run reaches the retry bound, which aborts the transfer;
    /// any sufficiently long datagram from the peer resets that run.
    pub fn on_event(&mut self, ev: DownloadEvent) -> (r: DownloadStep)
        requires
            old(self).phase is Receiving,
            old(self).wf(),
            byte_counter_has_room(&ev, old(self).bytes_received),
        ensures
            final(self).wf(),
            carries_expected(&ev, old(self).expected_block) ==> {
                &&& (r matches DownloadStep::Write { payload, ack, last } && {
                    &&& payload@ == event_payload(&ev)
                    &&& ack@ == spec_ack_packet(old(self).expected_block)
                    &&& last == (event_payload(&ev).len() < PACKET_SIZE)
                })
                &&& final(self).expected_block == spec_wrap_inc(old(self).expected_block)
                &&& final(self).bytes_received == old(self).bytes_received + event_payload(
                    &ev,
                ).len()
                &&& final(self).received@ == old(self).received@ + event_payload(&ev)
                &&& final(self).consecutive_timeouts == 0
                &&& final(self).phase == (if event_payload(&ev).len() < PACKET_SIZE {
                    DownloadPhase::Complete
                } else {
                    DownloadPhase::Receiving
                })
            },
            carries_previous(&ev, old(self).expected_block) ==> {
                &&& (r matches DownloadStep::ResendAck { ack } && ack@ == spec_ack_packet(
                    spec_wrap_dec(old(self).expected_block),
                ))
                &&& final(self).expected_block == old(self).expected_block
                &&& final(self).bytes_received == old(self).bytes_received
                &&& final(self).received@ == old(self).received@
                &&& final(self).consecutive_timeouts == 0
                &&& final(self).phase is Receiving
            },
            !carries_expected(&ev, old(self).expected_block) && !carries_previous(
                &ev,
                old(self).expected_block,
            ) && carries_error(&ev) ==> {
                &&& (match ev {
                    DownloadEvent::Datagram { from_peer: _, data } => r
                        matches DownloadStep::PeerFailure { code, message } && code
                        == packet_block(data@) && message@ == error_message_of(data@),
                    DownloadEvent::TimedOut => false,
                })
                &&& final(self).phase is Failed
                &&& final(self).received@ == old(self).received@
                &&& final(self).bytes_received == old(self).bytes_received
            },
            !carries_expected(&ev, old(self).expected_block) && !carries_previous(
                &ev,
                old(self).expected_block,
            ) && !carries_error(&ev) && !is_timeout_event(&ev) ==> {
                &&& r is Ignore
                &&& final(self).expected_block == old(self).expected_block
                &&& final(self).bytes_received == old(self).bytes_received
                &&& final(self).received@ == old(self).received@
                &&& final(self).phase is Receiving
                &&& final(self).consecutive_timeouts == (if relevant_datagram(&ev) {
                    0int
                } else {
                    old(self).consecutive_timeouts as int
                })
            },
            is_timeout_event(&ev) ==> {
                &&& final(self).expected_block == old(self).expected_block
                &&& final(self).bytes_received == old(self).bytes_received
                &&& final(self).received@ == old(self).received@
                &&& (if old(self).consecutive_timeouts + 1 < MAX_RETRIES {
                    &&& (r matches DownloadStep::SetTimeout { timeout_ms } && timeout_ms
                        == spec_timeout_ms((old(self).consecutive_timeouts + 1) as nat))
                    &&& final(self).consecutive_timeouts == old(self).consecutive_timeouts + 1
                    &&& final(self).phase is Receiving
                } else {
                    &&& r is Abort
                    &&& final(self).phase is Failed
                })
            },
    {
        match ev {
            DownloadEvent::TimedOut => {
                self.consecutive_timeouts = self.consecutive_timeouts + 1;
                if self.consecutive_timeouts < MAX_RETRIES {
                    let timeout_ms = calculate_timeout_u64(self.consecutive_timeouts);
                    DownloadStep::SetTimeout { timeout_ms }
                } else {
                    self.phase = DownloadPhase::Failed;
                    DownloadStep::Abort
                }
            },
            DownloadEvent::Datagram { from_peer, data } => {
                if !from_peer || data.len() < 4 {
                    return DownloadStep::Ignore;
                }
                self.consecutive_timeouts = 0;
                let opcode = crate::packet::be16(data[0], data[1]);
                let block = crate::packet::be16(data[2], data[3]);
                if opcode == OPCODE_DATA && block == self.expected_block {
                    proof {
                        assert(spec_wrap_dec(self.expected_block) != self.expected_block);
                    }
                    let mut data = data;
                    let payload = data.split_off(4);
                    let ack = build_ack_packet(self.expected_block);
                    let last = payload.len() < PACKET_SIZE;
                    self.bytes_received = self.bytes_received + payload.len() as u64;
                    proof {
                        self.received@ = self.received@ + payload@;
                    }
                    self.expected_block = wrap_inc(self.expected_block);
                    if last {
                        self.phase = DownloadPhase::Complete;
                    }
                    DownloadStep::Write { payload, ack, last }
                } else if opcode == OPCODE_DATA && block == wrap_dec(self.expected_block) {
                    let ack = build_ack_packet(wrap_dec(self.expected_block));
                    DownloadStep::ResendAck { ack }
                } else if opcode == OPCODE_ERROR {
                    let mut data = data;
                    let mut message = data.split_off(4);
                    if message.len() > 0 && message[message.len() - 1] == 0 {
                        let _ = message.pop();
                    }
                    self.phase = DownloadPhase::Failed;
                    DownloadStep::PeerFailure { code: block, message }
                } else {
                    DownloadStep::Ignore
                }
            },
        }
    }
}

/// Whether the event is the expiry of the wait.
pub open spec fn is_timeout_event(ev: &DownloadEvent) -> bool {
    ev is TimedOut
}

} // verus!
