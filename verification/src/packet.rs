//! Wire-level view of TFTP packets.
//!
//! Every datagram starts with a big-endian 16-bit opcode. Data and
//! acknowledgment packets carry a big-endian 16-bit block number right
//! after it; error packets carry a 16-bit error code and a NUL-terminated
//! message.

use vstd::prelude::*;

use crate::protocol::{OPCODE_ACK, OPCODE_DATA, OPCODE_ERROR, PACKET_SIZE};

verus! {

/// The value of two bytes read as a big-endian 16-bit integer.
pub open spec fn spec_be16(hi: u8, lo: u8) -> u16 {
    (hi * 256 + lo) as u16
}

/// The two big-endian bytes of a 16-bit integer.
pub open spec fn spec_u16_bytes(x: u16) -> Seq<u8> {
    seq![(x / 256) as u8, (x % 256) as u8]
}

/// The bytes of a data packet: opcode 3, block number, payload.
pub open spec fn spec_data_packet(block: u16, payload: Seq<u8>) -> Seq<u8> {
    seq![0u8, OPCODE_DATA as u8] + spec_u16_bytes(block) + payload
}

/// The bytes of an acknowledgment packet: opcode 4, block number.
pub open spec fn spec_ack_packet(block: u16) -> Seq<u8> {
    seq![0u8, OPCODE_ACK as u8] + spec_u16_bytes(block)
}

/// The bytes of an error packet: opcode 5, error code, NUL-terminated
/// message.
pub open spec fn spec_error_packet(code: u16, message: Seq<u8>) -> Seq<u8> {
    seq![0u8, OPCODE_ERROR as u8] + spec_u16_bytes(code) + message + seq![0u8]
}

/// The opcode of a received datagram.
pub open spec fn packet_opcode(data: Seq<u8>) -> u16
    recommends
        data.len() >= 2,
{
    spec_be16(data[0], data[1])
}

/// The block number (or, for an error packet, the error code) of a
/// received datagram.
pub open spec fn packet_block(data: Seq<u8>) -> u16
    recommends
        data.len() >= 4,
{
    spec_be16(data[2], data[3])
}

/// Whether a datagram acknowledges exactly the given block.
pub open spec fn is_ack_for(data: Seq<u8>, block: u16) -> bool {
    &&& data.len() >= 4
    &&& packet_opcode(data) == OPCODE_ACK
    &&& packet_block(data) == block
}

/// Whether a datagram carries data for exactly the given block.
pub open spec fn is_data_for(data: Seq<u8>, block: u16) -> bool {
    &&& data.len() >= 4
    &&& packet_opcode(data) == OPCODE_DATA
    &&& packet_block(data) == block
}

/// Whether a datagram is a well-formed-enough error packet: opcode 5 with
/// room for the error code.
pub open spec fn is_error_packet(data: Seq<u8>) -> bool {
    &&& data.len() >= 4
    &&& packet_opcode(data) == OPCODE_ERROR
}

/// The payload of a data packet: everything after the 4-byte header.
pub open spec fn data_payload(data: Seq<u8>) -> Seq<u8>
    recommends
        data.len() >= 4,
{
    data.skip(4)
}

/// Whether a data payload is the terminal one: strictly shorter than a
/// full block, the empty payload included.
pub open spec fn is_terminal_payload(payload: Seq<u8>) -> bool {
    payload.len() < PACKET_SIZE as int
}

/// The message carried by an error packet: the bytes after the code, with
/// one trailing NUL stripped when the peer sent one. Nothing forces a
/// malformed peer to terminate its message, so the missing NUL is
/// tolerated rather than assumed.
pub open spec fn error_message_of(data: Seq<u8>) -> Seq<u8>
    recommends
        data.len() >= 4,
{
    let m = data.skip(4);
    if m.len() > 0 && m.last() == 0 {
        m.drop_last()
    } else {
        m
    }
}

/// The next block number in 16-bit wraparound order.
pub open spec fn spec_wrap_inc(block: u16) -> u16 {
    if block == 0xFFFF {
        0
    } else {
        (block + 1) as u16
    }
}

/// The previous block number in 16-bit wraparound order.
pub open spec fn spec_wrap_dec(block: u16) -> u16 {
    if block == 0 {
        0xFFFF
    } else {
        (block - 1) as u16
    }
}

/// Block numbering is a 16-bit counter: stepping forward is addition
/// modulo 65536, and stepping back undoes it.
pub proof fn lemma_wrap_round(block: u16)
    ensures
        spec_wrap_inc(block) == ((block + 1) % 0x10000) as u16,
        spec_wrap_dec(spec_wrap_inc(block)) == block,
        spec_wrap_inc(spec_wrap_dec(block)) == block,
        spec_wrap_inc(block) != block,
{
}

/// Reads the big-endian 16-bit integer in the first two bytes.
pub fn be16(hi: u8, lo: u8) -> (r: u16)
    ensures
        r == spec_be16(hi, lo),
{
    (hi as u16) * 256 + (lo as u16)
}

/// The next block number, wrapping 65535 around to 0.
pub fn wrap_inc(block: u16) -> (r: u16)
    ensures
        r == spec_wrap_inc(block),
{
    if block == 0xFFFF {
        0
    } else {
        block + 1
    }
}

/// The previous block number, wrapping 0 back to 65535.
pub fn wrap_dec(block: u16) -> (r: u16)
    ensures
        r == spec_wrap_dec(block),
{
    if block == 0 {
        0xFFFF
    } else {
        block - 1
    }
}

/// Builds the data packet for one block.
pub fn build_data_packet(block: u16, payload: &[u8]) -> (r: Vec<u8>)
    ensures
        r@ == spec_data_packet(block, payload@),
{
    let mut packet: Vec<u8> = Vec::new();
    packet.push(0);
    packet.push(OPCODE_DATA as u8);
    packet.push((block / 256) as u8);
    packet.push((block % 256) as u8);
    packet.extend_from_slice(payload);
    proof {
        assert(packet@ =~= spec_data_packet(block, payload@));
    }
    packet
}

/// Builds the acknowledgment packet for one block.
pub fn build_ack_packet(block: u16) -> (r: Vec<u8>)
    ensures
        r@ == spec_ack_packet(block),
{
    let mut packet: Vec<u8> = Vec::new();
    packet.push(0);
    packet.push(OPCODE_ACK as u8);
    packet.push((block / 256) as u8);
    packet.push((block % 256) as u8);
    proof {
        assert(packet@ =~= spec_ack_packet(block));
    }
    packet
}

/// Builds the error packet for one rejection: code, then the message,
/// NUL-terminated. This is the whole of the error reporter; sending the
/// packet, once and without retries, is the caller's business.
pub fn build_error_packet(code: u16, message: &[u8]) -> (r: Vec<u8>)
    ensures
        r@ == spec_error_packet(code, message@),
{
    let mut packet: Vec<u8> = Vec::new();
    packet.push(0);
    packet.push(OPCODE_ERROR as u8);
    packet.push((code / 256) as u8);
    packet.push((code % 256) as u8);
    packet.extend_from_slice(message);
    packet.push(0);
    proof {
        assert(packet@ =~= spec_error_packet(code, message@));
    }
    packet
}

/// Encoding a block number and reading it back round-trips, so a built
/// data or acknowledgment packet is recognized as being for its own
/// block.
pub proof fn lemma_packet_round_trip(block: u16, payload: Seq<u8>)
    ensures
        is_data_for(spec_data_packet(block, payload), block),
        data_payload(spec_data_packet(block, payload)) == payload,
        is_ack_for(spec_ack_packet(block), block),
{
    assert(spec_be16((block / 256) as u8, (block % 256) as u8) == block);
    assert(data_payload(spec_data_packet(block, payload)) =~= payload);
}

} // verus!
