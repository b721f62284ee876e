//! The upload engine: serves a file to the peer, one acknowledged data
//! block at a time.
//!
//! The engine is the decision core of a transfer task. The task reads the
//! file and moves datagrams; the engine owns the lockstep discipline: no
//! block is loaded before the previous one is acknowledged (`begin_block`
//! demands the `Loading` phase, which only an accepted acknowledgment
//! re-establishes), a bounded retry budget per block, and 16-bit
//! wraparound block numbering.

use vstd::prelude::*;

use crate::packet::{
    build_data_packet, is_ack_for, spec_data_packet, spec_wrap_dec, spec_wrap_inc, wrap_inc,
};
use crate::protocol::{MAX_RETRIES, PACKET_SIZE};
use crate::timeout::{calculate_timeout, calculate_timeout_u64, spec_timeout_ms};

verus! {

/// Where one upload stands.
pub enum UploadPhase {
    /// The previous block (if any) is acknowledged; the next chunk of the
    /// file may be loaded.
    Loading,
    /// A data packet is in flight and its acknowledgment is awaited.
    AwaitingAck,
    /// The terminal block was acknowledged; the transfer succeeded.
    Complete,
    /// The retry budget of one block ran out; the transfer is abandoned.
    Failed,
}

/// What the transfer task observed while waiting for an acknowledgment.
pub enum UploadEvent {
    /// A datagram arrived; `from_peer` says whether its source address is
    /// the transfer's peer.
    Datagram { from_peer: bool, data: Vec<u8> },
    /// The wait expired with nothing received.
    TimedOut,
}

/// What the transfer task must do next.
pub enum UploadStep {
    /// The block in flight was acknowledged. When `more` holds, the block
    /// was full and another must follow; otherwise the transfer is
    /// complete.
    Accepted { more: bool },
    /// A duplicate acknowledgment (for the previous block) arrived: keep
    /// waiting on the same deadline budget.
    KeepWaiting,
    /// Send the packet in flight again and wait `timeout_ms` milliseconds.
    Resend { timeout_ms: u64 },
    /// The retry budget ran out: abort the transfer as a network timeout.
    Abort,
}

/// Whether the event is an acknowledgment, from the peer, of exactly the
/// given block.
pub open spec fn accepts_block(ev: &UploadEvent, block: u16) -> bool {
    match ev {
        UploadEvent::Datagram { from_peer, data } => *from_peer && is_ack_for(data@, block),
        UploadEvent::TimedOut => false,
    }
}

/// Whether the event is a duplicate acknowledgment: from the peer, for
/// the block just before the one in flight.
pub open spec fn duplicate_ack(ev: &UploadEvent, block: u16) -> bool {
    accepts_block(ev, spec_wrap_dec(block))
}

/// Whether the event is the expiry of the wait.
pub open spec fn is_timeout(ev: &UploadEvent) -> bool {
    ev is TimedOut
}

pub struct UploadEngine {
    /// Block number of the chunk in flight (or, in the `Loading` phase, of
    /// the chunk about to be loaded). Starts at 1 and wraps at 65536.
    pub block: u16,
    /// Bytes of all acknowledged blocks so far.
    pub bytes_sent: u64,
    /// Consecutive failures (timeouts or rejected datagrams) for the block
    /// in flight; reset when a block is loaded or acknowledged.
    pub retries: u64,
    /// Consecutive timeout expiries with no acknowledgment accepted; reset
    /// by every accepted acknowledgment. The task may use it to pace a
    /// lossy link.
    pub consecutive_timeouts: u64,
    /// Payload length of the block in flight.
    pub chunk_len: usize,
    pub phase: UploadPhase,
}

impl UploadEngine {
    /// The engine's housekeeping invariant: budgets stay inside their
    /// bounds and the byte counter cannot overflow while a block is in
    /// flight.
    pub open spec fn wf(&self) -> bool {
        &&& self.retries <= MAX_RETRIES
        &&& self.consecutive_timeouts <= MAX_RETRIES
        &&& (self.phase is AwaitingAck ==> {
            &&& self.retries < MAX_RETRIES
            &&& self.consecutive_timeouts <= self.retries
            &&& self.chunk_len <= PACKET_SIZE
            &&& self.bytes_sent + self.chunk_len <= u64::MAX
        })
        &&& (self.phase is Loading ==> self.retries == 0 && self.consecutive_timeouts == 0)
    }

    /// A fresh upload: nothing sent, the first data block will be number 1.
    pub fn new() -> (r: Self)
        ensures
            r.block == 1,
            r.bytes_sent == 0,
            r.retries == 0,
            r.consecutive_timeouts == 0,
            r.phase is Loading,
            r.wf(),
    {
        UploadEngine {
            block: 1,
            bytes_sent: 0,
            retries: 0,
            consecutive_timeouts: 0,
            chunk_len: 0,
            phase: UploadPhase::Loading,
        }
    }

    /// Loads the next chunk of the file and builds its data packet. The
    /// task must send the packet and wait the returned number of
    /// milliseconds for an acknowledgment. Demanding the `Loading` phase
    /// is what makes the transfer lockstep: the previous block must have
    /// been accepted first.
    pub fn begin_block(&mut self, payload: &[u8]) -> (r: (Vec<u8>, u64))
        requires
            old(self).phase is Loading,
            old(self).wf(),
            payload@.len() <= PACKET_SIZE,
            old(self).bytes_sent + PACKET_SIZE <= u64::MAX,
        ensures
            final(self).wf(),
            r.0@ == spec_data_packet(old(self).block, payload@),
            r.1 == spec_timeout_ms(0),
            final(self).phase is AwaitingAck,
            final(self).block == old(self).block,
            final(self).bytes_sent == old(self).bytes_sent,
            final(self).chunk_len == payload@.len(),
            final(self).retries == 0,
            final(self).consecutive_timeouts == 0,
    {
        let packet = build_data_packet(self.block, payload);
        self.chunk_len = payload.len();
        self.retries = 0;
        self.phase = UploadPhase::AwaitingAck;
        let timeout_ms = calculate_timeout(0);
        (packet, timeout_ms)
    }

    /// Judges one event observed while the block is in flight.
    ///
    /// An acknowledgment of the block in flight accepts it: the byte
    /// count grows by the block's payload, the block number advances with
    /// 16-bit wraparound, the failure budgets reset, and the transfer is
    /// complete exactly when the block was shorter than a full one. A
    /// duplicate acknowledgment (previous block) changes nothing. Any
    /// other datagram, and any timeout, eats one unit of the retry
    /// budget; when the budget is gone the transfer aborts.
    pub fn on_event(&mut self, ev: &UploadEvent) -> (r: UploadStep)
        requires
            old(self).phase is AwaitingAck,
            old(self).wf(),
        ensures
            final(self).wf(),
            final(self).chunk_len == old(self).chunk_len,
            accepts_block(ev, old(self).block) ==> {
                &&& r == (UploadStep::Accepted { more: old(self).chunk_len == PACKET_SIZE })
                &&& final(self).block == spec_wrap_inc(old(self).block)
                &&& final(self).bytes_sent == old(self).bytes_sent + old(self).chunk_len
                &&& final(self).retries == 0
                &&& final(self).consecutive_timeouts == 0
                &&& final(self).phase == (if old(self).chunk_len == PACKET_SIZE {
                    UploadPhase::Loading
                } else {
                    UploadPhase::Complete
                })
            },
            duplicate_ack(ev, old(self).block) ==> {
                &&& r is KeepWaiting
                &&& *final(self) == *old(self)
            },
            !accepts_block(ev, old(self).block) && !duplicate_ack(ev, old(self).block) ==> {
                &&& final(self).block == old(self).block
                &&& final(self).bytes_sent == old(self).bytes_sent
                &&& final(self).consecutive_timeouts == old(self).consecutive_timeouts + (
                if is_timeout(ev) {
                    1int
                } else {
                    0int
                })
                &&& (if old(self).retries + 1 < MAX_RETRIES {
                    &&& (r matches UploadStep::Resend { timeout_ms } && timeout_ms
                        == spec_timeout_ms((old(self).retries + 1) as nat))
                    &&& final(self).retries == old(self).retries + 1
                    &&& final(self).phase is AwaitingAck
                } else {
                    &&& r is Abort
                    &&& final(self).phase is Failed
                })
            },
    {
        proof {
            // An acknowledgment cannot name both the block in flight and
            // its predecessor: the two differ modulo 65536.
            assert(spec_wrap_dec(self.block) != self.block);
        }
        let timed_out = match ev {
            UploadEvent::TimedOut => true,
            UploadEvent::Datagram { .. } => false,
        };
        let mut matched: bool = false;
        let mut duplicate: bool = false;
        if let UploadEvent::Datagram { from_peer, data } = ev {
            if *from_peer && data.len() >= 4 {
                let opcode = crate::packet::be16(data[0], data[1]);
                let ack_block = crate::packet::be16(data[2], data[3]);
                if opcode == crate::protocol::OPCODE_ACK {
                    if ack_block == self.block {
                        matched = true;
                    } else if ack_block == crate::packet::wrap_dec(self.block) {
                        duplicate = true;
                    }
                }
            }
        }
        if matched {
            let more = self.chunk_len == PACKET_SIZE;
            self.bytes_sent = self.bytes_sent + self.chunk_len as u64;
            self.block = wrap_inc(self.block);
            self.retries = 0;
            self.consecutive_timeouts = 0;
            self.phase = if more {
                UploadPhase::Loading
            } else {
                UploadPhase::Complete
            };
            UploadStep::Accepted { more }
        } else if duplicate {
            UploadStep::KeepWaiting
        } else {
            if timed_out {
                self.consecutive_timeouts = self.consecutive_timeouts + 1;
            }
            if self.retries + 1 < MAX_RETRIES {
                self.retries = self.retries + 1;
                let timeout_ms = calculate_timeout_u64(self.retries);
                UploadStep::Resend { timeout_ms }
            } else {
                self.phase = UploadPhase::Failed;
                UploadStep::Abort
            }
        }
    }
}

} // verus!
