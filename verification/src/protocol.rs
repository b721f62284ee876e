//! Protocol-wide constants and the error model of the transfer core.

use vstd::prelude::*;

verus! {

/// Opcode of a read request (client asks the server to send a file).
pub const OPCODE_RRQ: u16 = 1;
/// Opcode of a write request (client asks to store a file on the server).
pub const OPCODE_WRQ: u16 = 2;
/// Opcode of a data packet.
pub const OPCODE_DATA: u16 = 3;
/// Opcode of an acknowledgment packet.
pub const OPCODE_ACK: u16 = 4;
/// Opcode of an error packet.
pub const OPCODE_ERROR: u16 = 5;

/// Wire error code: requested file was not found.
pub const ERROR_FILE_NOT_FOUND: u16 = 1;
/// Wire error code: the resolved path escapes the served root.
pub const ERROR_ACCESS_VIOLATION: u16 = 2;
/// Wire error code: the datagram is not a legal TFTP request.
pub const ERROR_ILLEGAL_OPERATION: u16 = 4;

/// Bound on the retry budget of one protocol step.
pub const MAX_RETRIES: u64 = 8;
/// Wait for the first attempt of a protocol step, in milliseconds.
pub const INITIAL_TIMEOUT_MS: u64 = 1000;
/// Upper clamp on the per-attempt wait, in milliseconds.
pub const MAX_TIMEOUT_MS: u64 = 5000;
/// Payload size of every data block except the terminal one.
pub const PACKET_SIZE: usize = 512;

/// Everything that can cut a request or a running transfer short.
#[derive(Debug)]
pub enum TftpError {
    /// The request datagram could not be parsed into two fields.
    MalformedRequest,
    /// The datagram carries an opcode the listener does not serve.
    IllegalOperation,
    /// The requested path escapes the served root.
    AccessViolation,
    /// A read request named a missing or non-regular file.
    NotFound,
    /// The retry/timeout budget of a transfer was exhausted.
    NetworkTimeout,
    /// The peer aborted the transfer with its own error packet.
    PeerError { code: u16, message: Vec<u8> },
}

impl TftpError {
    /// The wire error code that answers this rejection, if the protocol
    /// answers it at all: parse failures and foreign opcodes are answered as
    /// illegal operations, path escapes as access violations, missing files
    /// as not-found. Mid-transfer failures send no error packet.
    pub fn wire_code(&self) -> (r: Option<u16>)
        ensures
            r == match self {
                TftpError::MalformedRequest => Some(ERROR_ILLEGAL_OPERATION),
                TftpError::IllegalOperation => Some(ERROR_ILLEGAL_OPERATION),
                TftpError::AccessViolation => Some(ERROR_ACCESS_VIOLATION),
                TftpError::NotFound => Some(ERROR_FILE_NOT_FOUND),
                TftpError::NetworkTimeout => None::<u16>,
                TftpError::PeerError { .. } => None::<u16>,
            },
    {
        match self {
            TftpError::MalformedRequest => Some(ERROR_ILLEGAL_OPERATION),
            TftpError::IllegalOperation => Some(ERROR_ILLEGAL_OPERATION),
            TftpError::AccessViolation => Some(ERROR_ACCESS_VIOLATION),
            TftpError::NotFound => Some(ERROR_FILE_NOT_FOUND),
            TftpError::NetworkTimeout => None,
            TftpError::PeerError { .. } => None,
        }
    }
}

} // verus!
