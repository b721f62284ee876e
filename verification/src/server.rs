//! The request dispatcher: from one inbound datagram to a transfer
//! decision.
//!
//! A datagram on the listening port is either a read request (serve a
//! file), a write request (store a file), or noise. The dispatcher
//! validates the opcode, parses the two NUL-terminated ASCII fields of a
//! request, applies the path guard, and says which engine to start — or
//! which error packet to answer with. Sockets, files and threads are the
//! caller's; one accepted request is served by one independent task.

use vstd::prelude::*;
use vstd::slice::slice_subrange;

use crate::ascii::{all_ascii, ascii_bytes, ascii_to_string, chars_of_ascii};
use crate::packet::packet_opcode;
use crate::bytes::views_of;
use crate::pathguard::{check_path, guard_admits, is_canonical_root, resolve};
use crate::protocol::{OPCODE_RRQ, OPCODE_WRQ, TftpError};

verus! {

/// The scan of a request body for NUL-terminated fields, as (finished
/// fields, field still open). A NUL finishes the open field when it is
/// non-empty; scanning stops caring once two fields are done.
pub open spec fn field_scan(data: Seq<u8>) -> (Seq<Seq<u8>>, Seq<u8>)
    decreases data.len(),
{
    if data.len() == 0 {
        (Seq::empty(), Seq::empty())
    } else {
        let st = field_scan(data.drop_last());
        let b = data.last();
        if st.0.len() >= 2 {
            st
        } else if b == 0 {
            if st.1.len() > 0 {
                (st.0.push(st.1), Seq::empty())
            } else {
                st
            }
        } else {
            (st.0, st.1.push(b))
        }
    }
}

/// The NUL-terminated fields of a request body, at most the first two.
/// Empty fields do not count; an unterminated trailing field does not
/// count either.
pub open spec fn request_fields(data: Seq<u8>) -> Seq<Seq<u8>> {
    field_scan(data).0
}

/// Whether the body parses: two terminated fields, both ASCII.
pub open spec fn fields_ok(data: Seq<u8>) -> bool {
    &&& request_fields(data).len() == 2
    &&& ascii_bytes(request_fields(data)[0])
    &&& ascii_bytes(request_fields(data)[1])
}

/// What the dispatcher decided for one datagram.
pub enum DispatchOutcome {
    /// A read request was accepted: serve the file at `path` with the
    /// upload engine.
    StartUpload { filename: String, mode: String, path: Vec<Vec<u8>> },
    /// A write request was accepted: store the file at `path` with the
    /// download engine.
    StartDownload { filename: String, mode: String, path: Vec<Vec<u8>> },
    /// The datagram was rejected; `error` says how to answer it.
    Reject { error: TftpError },
}

/// The server's configuration: the listening port and the served root,
/// as canonical path segments.
#[derive(Clone)]
pub struct TFTPServer {
    pub port: u16,
    pub directory: Vec<Vec<u8>>,
}

impl TFTPServer {
    /// The served root must be canonical for the path guard's answers to
    /// mean containment.
    pub open spec fn wf(&self) -> bool {
        is_canonical_root(views_of(self.directory@))
    }

    /// A server for the given port, serving the given canonical root.
    pub fn new(port: u16, directory: Vec<Vec<u8>>) -> (r: Self)
        requires
            is_canonical_root(views_of(directory@)),
        ensures
            r.port == port,
            r.directory == directory,
            r.wf(),
    {
        TFTPServer { port, directory }
    }

    /// Parses a request body into its filename and mode strings.
    pub fn parse_request(&self, data: &[u8]) -> (r: Result<(String, String), TftpError>)
        ensures
            match r {
                Ok(p) => {
                    &&& fields_ok(data@)
                    &&& p.0@ == chars_of_ascii(request_fields(data@)[0])
                    &&& p.1@ == chars_of_ascii(request_fields(data@)[1])
                },
                Err(e) => e is MalformedRequest && !fields_ok(data@),
            },
    {
        match parse_fields(data) {
            Ok((filename, mode)) => Ok((ascii_to_string(&filename), ascii_to_string(&mode))),
            Err(e) => Err(e),
        }
    }

    /// Decides one inbound datagram.
    ///
    /// A datagram shorter than an opcode, or a request whose body does
    /// not parse, is malformed; an opcode other than read-request or
    /// write-request is an illegal operation; a filename the guard
    /// refuses is an access violation. Otherwise the matching engine is
    /// to be started on the resolved path. No file or socket exists yet
    /// when this returns.
    pub fn handle_request(&self, data: &[u8]) -> (r: DispatchOutcome)
        requires
            self.wf(),
        ensures
            ({
                let body = data@.skip(2);
                let fields = request_fields(body);
                let root = views_of(self.directory@);
                &&& (data@.len() < 2 ==> (r matches DispatchOutcome::Reject { error } && error
                    is MalformedRequest))
                &&& (data@.len() >= 2 && packet_opcode(data@) != OPCODE_RRQ && packet_opcode(data@)
                    != OPCODE_WRQ ==> (r matches DispatchOutcome::Reject { error } && error
                    is IllegalOperation))
                &&& (data@.len() >= 2 && (packet_opcode(data@) == OPCODE_RRQ || packet_opcode(
                    data@,
                ) == OPCODE_WRQ) ==> {
                    &&& (!fields_ok(body) ==> (r matches DispatchOutcome::Reject { error } && error
                        is MalformedRequest))
                    &&& (fields_ok(body) && !guard_admits(root, fields[0]) ==> (r
                        matches DispatchOutcome::Reject { error } && error is AccessViolation))
                    &&& (fields_ok(body) && guard_admits(root, fields[0]) && packet_opcode(data@)
                        == OPCODE_RRQ ==> (r matches DispatchOutcome::StartUpload {
                        filename,
                        mode,
                        path,
                    } && {
                        &&& filename@ == chars_of_ascii(fields[0])
                        &&& mode@ == chars_of_ascii(fields[1])
                        &&& Some(views_of(path@)) == resolve(root, fields[0])
                    }))
                    &&& (fields_ok(body) && guard_admits(root, fields[0]) && packet_opcode(data@)
                        == OPCODE_WRQ ==> (r matches DispatchOutcome::StartDownload {
                        filename,
                        mode,
                        path,
                    } && {
                        &&& filename@ == chars_of_ascii(fields[0])
                        &&& mode@ == chars_of_ascii(fields[1])
                        &&& Some(views_of(path@)) == resolve(root, fields[0])
                    }))
                })
            }),
    {
        if data.len() < 2 {
            return DispatchOutcome::Reject { error: TftpError::MalformedRequest };
        }
        let opcode = crate::packet::be16(data[0], data[1]);
        if opcode != OPCODE_RRQ && opcode != OPCODE_WRQ {
            return DispatchOutcome::Reject { error: TftpError::IllegalOperation };
        }
        let body = slice_subrange(data, 2, data.len());
        proof {
            assert(body@ =~= data@.skip(2));
        }
        match parse_fields(body) {
            Err(e) => DispatchOutcome::Reject { error: e },
            Ok((filename_bytes, mode_bytes)) => {
                match check_path(&self.directory, filename_bytes.as_slice()) {
                    Err(e) => DispatchOutcome::Reject { error: e },
                    Ok(path) => {
                        let filename = ascii_to_string(&filename_bytes);
                        let mode = ascii_to_string(&mode_bytes);
                        if opcode == OPCODE_RRQ {
                            DispatchOutcome::StartUpload { filename, mode, path }
                        } else {
                            DispatchOutcome::StartDownload { filename, mode, path }
                        }
                    },
                }
            },
        }
    }
}

/// The preflight of an accepted read request: the target must exist and
/// be a regular file, else the request is answered as not-found and no
/// transfer starts. The caller supplies what it observed of the
/// filesystem.
pub fn check_upload_target(exists: bool, regular: bool) -> (r: Result<(), TftpError>)
    ensures
        r is Ok <==> exists && regular,
        r matches Err(e) ==> e is NotFound,
{
    if exists && regular {
        Ok(())
    } else {
        Err(TftpError::NotFound)
    }
}

/// The scan never finishes more than two fields.
proof fn lemma_field_scan_caps(data: Seq<u8>)
    ensures
        field_scan(data).0.len() <= 2,
    decreases data.len(),
{
    if data.len() > 0 {
        lemma_field_scan_caps(data.drop_last());
    }
}

/// Parses a request body into its two fields, bytes as they came.
fn parse_fields(data: &[u8]) -> (r: Result<(Vec<u8>, Vec<u8>), TftpError>)
    ensures
        match r {
            Ok(f) => {
                &&& fields_ok(data@)
                &&& f.0@ == request_fields(data@)[0]
                &&& f.1@ == request_fields(data@)[1]
            },
            Err(e) => e is MalformedRequest && !fields_ok(data@),
        },
{
    let mut parts: Vec<Vec<u8>> = Vec::new();
    let mut current: Vec<u8> = Vec::new();
    let mut i: usize = 0;
    proof {
        assert(views_of(parts@) =~= field_scan(data@.take(0)).0);
        assert(current@ =~= field_scan(data@.take(0)).1);
    }
    while i < data.len()
        invariant
            i <= data@.len(),
            views_of(parts@) == field_scan(data@.take(i as int)).0,
            current@ == field_scan(data@.take(i as int)).1,
        decreases data@.len() - i,
    {
        let ghost prefix = data@.take(i as int + 1);
        proof {
            assert(prefix.drop_last() =~= data@.take(i as int));
            assert(prefix.last() == data@[i as int]);
        }
        if parts.len() >= 2 {
        } else if data[i] == 0 {
            if current.len() > 0 {
                let ghost finished = views_of(parts@);
                let ghost open = current@;
                parts.push(current);
                current = Vec::new();
                proof {
                    assert(views_of(parts@) =~= finished.push(open));
                }
            }
        } else {
            current.push(data[i]);
        }
        i = i + 1;
    }
    proof {
        assert(data@.take(data@.len() as int) =~= data@);
    }
    if parts.len() < 2 {
        return Err(TftpError::MalformedRequest);
    }
    proof {
        lemma_field_scan_caps(data@);
    }
    let mode = parts.pop().unwrap();
    let filename = parts.pop().unwrap();
    proof {
        assert(filename@ == request_fields(data@)[0]);
        assert(mode@ == request_fields(data@)[1]);
    }
    if !all_ascii(&filename) || !all_ascii(&mode) {
        return Err(TftpError::MalformedRequest);
    }
    Ok((filename, mode))
}

} // verus!
