//! Path containment: the one security decision of the server.
//!
//! A client names a file with an arbitrary byte string. The guard joins
//! it onto the served root, resolves `.`/`..`/empty segments lexically,
//! and accepts the result only when the canonical root path is a prefix
//! of it. A path is a list of segments; the served root must already be
//! canonical (absolute, no traversal segments), which its owner
//! establishes once at startup. Symlink indirection cannot be seen
//! lexically: after the filesystem resolves a path, `is_path_prefix`
//! re-checks containment on the resolved segments.

use vstd::prelude::*;

use crate::bytes::{byte_vecs_equal, views_of};
use crate::protocol::TftpError;

verus! {

/// The path separator.
pub const SEPARATOR: u8 = 47;

/// One `.` segment.
pub open spec fn dot_segment() -> Seq<u8> {
    seq![46u8]
}

/// One `..` segment.
pub open spec fn dotdot_segment() -> Seq<u8> {
    seq![46u8, 46u8]
}

/// A canonical root: every segment is a plain name, so the root itself
/// resolves to itself.
pub open spec fn is_canonical_root(root: Seq<Seq<u8>>) -> bool {
    forall|i: int|
        0 <= i < root.len() ==> root[i].len() > 0 && root[i] != dot_segment() && root[i]
            != dotdot_segment()
}

/// The split of a byte string at separators, as (finished segments,
/// segment still open). Splitting goes left to right; a separator
/// finishes the open segment, empty segments included.
pub open spec fn split_state(name: Seq<u8>) -> (Seq<Seq<u8>>, Seq<u8>)
    decreases name.len(),
{
    if name.len() == 0 {
        (Seq::empty(), Seq::empty())
    } else {
        let st = split_state(name.drop_last());
        if name.last() == SEPARATOR {
            (st.0.push(st.1), Seq::empty())
        } else {
            (st.0, st.1.push(name.last()))
        }
    }
}

/// All segments of a byte string: `"a/b"` has segments `a`, `b`; a
/// leading separator opens with an empty segment, which marks the path
/// absolute.
pub open spec fn split_path(name: Seq<u8>) -> Seq<Seq<u8>> {
    split_state(name).0.push(split_state(name).1)
}

/// Whether the byte string names an absolute path.
pub open spec fn is_absolute(name: Seq<u8>) -> bool {
    name.len() > 0 && name[0] == SEPARATOR
}

/// Lexical resolution of segments against a stack of already-resolved
/// segments: empty and `.` segments vanish, `..` pops, a plain name is
/// appended. `None` means the path climbed above the filesystem root.
pub open spec fn normalize(stack: Seq<Seq<u8>>, segments: Seq<Seq<u8>>) -> Option<Seq<Seq<u8>>>
    decreases segments.len(),
{
    if segments.len() == 0 {
        Some(stack)
    } else {
        let s = segments[0];
        if s.len() == 0 || s == dot_segment() {
            normalize(stack, segments.skip(1))
        } else if s == dotdot_segment() {
            if stack.len() == 0 {
                None
            } else {
                normalize(stack.drop_last(), segments.skip(1))
            }
        } else {
            normalize(stack.push(s), segments.skip(1))
        }
    }
}

/// The resolved form of a client-supplied name joined onto the root: an
/// absolute name replaces the root, a relative one extends it.
pub open spec fn resolve(root: Seq<Seq<u8>>, name: Seq<u8>) -> Option<Seq<Seq<u8>>> {
    if is_absolute(name) {
        normalize(Seq::empty(), split_path(name))
    } else {
        normalize(root, split_path(name))
    }
}

/// Whether one segment list is a prefix of another.
pub open spec fn spec_is_prefix(prefix: Seq<Seq<u8>>, path: Seq<Seq<u8>>) -> bool {
    prefix.len() <= path.len() && path.take(prefix.len() as int) == prefix
}

/// Whether the guard admits the name: it resolves, and the root prefixes
/// the resolution.
pub open spec fn guard_admits(root: Seq<Seq<u8>>, name: Seq<u8>) -> bool {
    match resolve(root, name) {
        Some(path) => spec_is_prefix(root, path),
        None => false,
    }
}

/// Whether one resolved path stays under another. The transfer task
/// must hold the filesystem's own resolution of the target (symlinks
/// followed) against the root with this before touching the file.
pub fn is_path_prefix(prefix: &Vec<Vec<u8>>, path: &Vec<Vec<u8>>) -> (r: bool)
    ensures
        r == spec_is_prefix(views_of(prefix@), views_of(path@)),
{
    let ghost pre = views_of(prefix@);
    let ghost full = views_of(path@);
    if prefix.len() > path.len() {
        return false;
    }
    let mut i: usize = 0;
    while i < prefix.len()
        invariant
            i <= prefix.len() <= path.len(),
            pre == views_of(prefix@),
            full == views_of(path@),
            forall|j: int| 0 <= j < i ==> full[j] == pre[j],
        decreases prefix.len() - i,
    {
        if !byte_vecs_equal(&path[i], &prefix[i]) {
            proof {
                assert(full[i as int] != pre[i as int]);
                assert(full.take(pre.len() as int)[i as int] == full[i as int]);
            }
            return false;
        }
        i = i + 1;
    }
    proof {
        assert(full.take(pre.len() as int) =~= pre);
    }
    true
}

/// Splits a byte string into its segments.
fn split_segments(name: &[u8]) -> (r: Vec<Vec<u8>>)
    ensures
        views_of(r@) == split_path(name@),
{
    let mut segments: Vec<Vec<u8>> = Vec::new();
    let mut current: Vec<u8> = Vec::new();
    let mut i: usize = 0;
    proof {
        assert(views_of(segments@) =~= split_state(name@.take(0)).0);
        assert(current@ =~= split_state(name@.take(0)).1);
    }
    while i < name.len()
        invariant
            i <= name@.len(),
            views_of(segments@) == split_state(name@.take(i as int)).0,
            current@ == split_state(name@.take(i as int)).1,
        decreases name@.len() - i,
    {
        let ghost prefix = name@.take(i as int + 1);
        proof {
            assert(prefix.drop_last() =~= name@.take(i as int));
            assert(prefix.last() == name@[i as int]);
        }
        if name[i] == SEPARATOR {
            let ghost finished = views_of(segments@);
            let ghost open = current@;
            segments.push(current);
            current = Vec::new();
            proof {
                assert(views_of(segments@) =~= finished.push(open));
            }
        } else {
            current.push(name[i]);
        }
        i = i + 1;
    }
    proof {
        assert(name@.take(name@.len() as int) =~= name@);
    }
    let ghost finished = views_of(segments@);
    segments.push(current);
    proof {
        assert(views_of(segments@) =~= finished.push(split_state(name@).1));
    }
    segments
}

/// Is the segment empty or `.`?
fn is_skippable_segment(seg: &Vec<u8>) -> (r: bool)
    ensures
        r == (seg@.len() == 0 || seg@ == dot_segment()),
{
    if seg.len() == 0 {
        true
    } else if seg.len() == 1 && seg[0] == 46 {
        proof {
            assert(seg@ =~= dot_segment());
        }
        true
    } else {
        proof {
            assert(seg@ != dot_segment());
        }
        false
    }
}

/// Is the segment `..`?
fn is_dotdot_segment(seg: &Vec<u8>) -> (r: bool)
    ensures
        r == (seg@ == dotdot_segment()),
{
    if seg.len() == 2 && seg[0] == 46 && seg[1] == 46 {
        proof {
            assert(seg@ =~= dotdot_segment());
        }
        true
    } else {
        proof {
            assert(seg@ != dotdot_segment());
        }
        false
    }
}

/// Resolves a client-supplied name against the served root and demands
/// containment.
///
/// The admitted result is the full resolved path, root included, with no
/// empty, `.` or `..` segment left; every escaping name — `..`
/// traversal past the root, or an absolute name outside it — is an
/// access violation. The decision is made before any file or socket
/// exists for the request.
pub fn check_path(root: &Vec<Vec<u8>>, name: &[u8]) -> (r: Result<Vec<Vec<u8>>, TftpError>)
    requires
        is_canonical_root(views_of(root@)),
    ensures
        match r {
            Ok(path) => guard_admits(views_of(root@), name@) && Some(views_of(path@)) == resolve(
                views_of(root@),
                name@,
            ),
            Err(e) => e is AccessViolation && !guard_admits(views_of(root@), name@),
        },
{
    let segments = split_segments(name);
    let absolute = name.len() > 0 && name[0] == SEPARATOR;
    let mut stack: Vec<Vec<u8>> = if absolute {
        Vec::new()
    } else {
        copy_segments(root)
    };
    let ghost all = views_of(segments@);
    proof {
        assert(all.skip(0) =~= all);
        if !is_absolute(name@) {
            assert(views_of(stack@) == views_of(root@));
        } else {
            assert(views_of(stack@) =~= Seq::<Seq<u8>>::empty());
        }
    }
    let mut i: usize = 0;
    while i < segments.len()
        invariant
            i <= segments.len(),
            all == views_of(segments@),
            resolve(views_of(root@), name@) == normalize(views_of(stack@), all.skip(i as int)),
        decreases segments.len() - i,
    {
        let ghost rest = all.skip(i as int);
        let ghost pre_stack = views_of(stack@);
        proof {
            assert(rest[0] == all[i as int]);
            assert(rest.skip(1) =~= all.skip(i as int + 1));
        }
        if is_skippable_segment(&segments[i]) {
        } else if is_dotdot_segment(&segments[i]) {
            if stack.len() == 0 {
                return Err(TftpError::AccessViolation);
            }
            let _ = stack.pop();
            proof {
                assert(views_of(stack@) =~= pre_stack.drop_last());
            }
        } else {
            let segment = vstd::slice::slice_to_vec(segments[i].as_slice());
            stack.push(segment);
            proof {
                assert(views_of(stack@) =~= pre_stack.push(all[i as int]));
            }
        }
        i = i + 1;
    }
    proof {
        assert(all.skip(all.len() as int) =~= Seq::<Seq<u8>>::empty());
    }
    if is_path_prefix(root, &stack) {
        Ok(stack)
    } else {
        Err(TftpError::AccessViolation)
    }
}

/// A fresh copy of a segment list.
fn copy_segments(path: &Vec<Vec<u8>>) -> (r: Vec<Vec<u8>>)
    ensures
        views_of(r@) == views_of(path@),
{
    let mut out: Vec<Vec<u8>> = Vec::new();
    let mut i: usize = 0;
    while i < path.len()
        invariant
            i <= path.len(),
            views_of(out@) =~= views_of(path@).take(i as int),
        decreases path.len() - i,
    {
        let ghost pre = views_of(out@);
        out.push(vstd::slice::slice_to_vec(path[i].as_slice()));
        proof {
            assert(views_of(out@) =~= pre.push(views_of(path@)[i as int]));
            assert(views_of(path@).take(i as int + 1) =~= pre.push(views_of(path@)[i as int]));
        }
        i = i + 1;
    }
    proof {
        assert(views_of(path@).take(path.len() as int) =~= views_of(path@));
    }
    out
}

} // verus!
