//! A verified core for a TFTP (RFC 1350) server.
//!
//! The library holds the per-transfer protocol logic: packet encoding and
//! decoding, request parsing and dispatch, path containment, the lockstep
//! DATA/ACK engines for both transfer directions, the retry/timeout policy,
//! and the transfer-progress arithmetic. All socket and file I/O lives
//! outside the library and talks to it through plain values.

pub mod ascii;
pub mod bytes;
pub mod chunks;
pub mod download;
pub mod format;
pub mod packet;
pub mod pathguard;
pub mod progress;
pub mod protocol;
pub mod server;
pub mod timeout;
pub mod upload;
