//! The block schedule of an upload: how a file falls into data blocks.
//!
//! A file is sent as consecutive payloads of a full block each, and one
//! terminal payload strictly shorter than a block — the empty payload
//! when the file length is an exact multiple of the block size. Reading
//! the schedule back in order reassembles the file byte for byte, which
//! is what ties the two engines together: an upload transmits exactly
//! `spec_chunks` of the file, and a download that accepts those payloads
//! in order stores exactly the file.

use vstd::prelude::*;
use vstd::slice::{slice_subrange, slice_to_vec};

use crate::bytes::views_of;
use crate::protocol::PACKET_SIZE;

verus! {

/// The payload schedule of a file: full blocks, then one short terminal
/// block.
pub open spec fn spec_chunks(data: Seq<u8>) -> Seq<Seq<u8>>
    decreases data.len(),
{
    if data.len() < PACKET_SIZE as int {
        seq![data]
    } else {
        seq![data.take(PACKET_SIZE as int)] + spec_chunks(data.skip(PACKET_SIZE as int))
    }
}

/// A file of `n` bytes takes `n / 512 + 1` blocks: `⌈n/512⌉` when the
/// length is no exact multiple of 512, one extra zero-length terminal
/// block when it is.
pub proof fn lemma_chunk_count(data: Seq<u8>)
    ensures
        spec_chunks(data).len() == data.len() as int / (PACKET_SIZE as int) + 1,
        data.len() as int % (PACKET_SIZE as int) != 0 ==> spec_chunks(data).len() == (
        data.len() as int + (PACKET_SIZE - 1)) / (PACKET_SIZE as int),
        data.len() as int % (PACKET_SIZE as int) == 0 ==> spec_chunks(data).len()
            == data.len() as int / (PACKET_SIZE as int) + 1,
    decreases data.len(),
{
    if data.len() >= PACKET_SIZE as int {
        lemma_chunk_count(data.skip(PACKET_SIZE as int));
    }
}

/// Every block before the terminal one is full; the terminal one is
/// strictly short. Each full block is followed by another, so the
/// terminal block is always sent.
pub proof fn lemma_chunk_sizes(data: Seq<u8>)
    ensures
        spec_chunks(data).len() >= 1,
        forall|i: int|
            0 <= i < spec_chunks(data).len() - 1 ==> (#[trigger] spec_chunks(data)[i]).len()
                == PACKET_SIZE as int,
        spec_chunks(data).last().len() < PACKET_SIZE as int,
    decreases data.len(),
{
    if data.len() >= PACKET_SIZE as int {
        lemma_chunk_sizes(data.skip(PACKET_SIZE as int));
        let rest = spec_chunks(data.skip(PACKET_SIZE as int));
        assert(spec_chunks(data).last() == rest.last());
        assert forall|i: int| 0 <= i < spec_chunks(data).len() - 1 implies (#[trigger] spec_chunks(
            data,
        )[i]).len() == PACKET_SIZE as int by {
            if i > 0 {
                assert(spec_chunks(data)[i] == rest[i - 1]);
            }
        }
    }
}

/// Reassembling the schedule in order gives back the file: the
/// round-trip guarantee of a faithful transfer.
pub proof fn lemma_chunks_flatten(data: Seq<u8>)
    ensures
        spec_chunks(data).flatten() == data,
    decreases data.len(),
{
    if data.len() < PACKET_SIZE as int {
        let single = spec_chunks(data);
        assert(single.drop_first() =~= Seq::<Seq<u8>>::empty());
        assert(Seq::<Seq<u8>>::empty().flatten() == Seq::<u8>::empty());
        assert(single.flatten() == data + Seq::<u8>::empty());
        assert(data + Seq::<u8>::empty() =~= data);
    } else {
        lemma_chunks_flatten(data.skip(PACKET_SIZE as int));
        let chunks = spec_chunks(data);
        assert(chunks.drop_first() =~= spec_chunks(data.skip(PACKET_SIZE as int)));
        assert(chunks.flatten() == data.take(PACKET_SIZE as int) + spec_chunks(
            data.skip(PACKET_SIZE as int),
        ).flatten());
        assert(data.take(PACKET_SIZE as int) + data.skip(PACKET_SIZE as int) =~= data);
    }
}

/// Cuts a file held in memory into its payload schedule.
pub fn split_chunks(data: &[u8]) -> (r: Vec<Vec<u8>>)
    ensures
        views_of(r@) == spec_chunks(data@),
{
    let mut out: Vec<Vec<u8>> = Vec::new();
    let mut off: usize = 0;
    proof {
        assert(data@.skip(0) =~= data@);
        assert(views_of(out@) + spec_chunks(data@) =~= spec_chunks(data@));
    }
    while data.len() - off >= PACKET_SIZE
        invariant
            off <= data@.len(),
            spec_chunks(data@) == views_of(out@) + spec_chunks(data@.skip(off as int)),
        decreases data@.len() - off,
    {
        let ghost done = views_of(out@);
        let ghost rest = data@.skip(off as int);
        let chunk = slice_to_vec(slice_subrange(data, off, off + PACKET_SIZE));
        proof {
            assert(chunk@ =~= rest.take(PACKET_SIZE as int));
            assert(rest.skip(PACKET_SIZE as int) =~= data@.skip(off as int + PACKET_SIZE as int));
        }
        out.push(chunk);
        proof {
            assert(views_of(out@) =~= done.push(rest.take(PACKET_SIZE as int)));
            assert(views_of(out@) + spec_chunks(data@.skip(off as int + PACKET_SIZE as int)) =~= done
                + spec_chunks(rest));
        }
        off = off + PACKET_SIZE;
    }
    let ghost done = views_of(out@);
    let ghost rest = data@.skip(off as int);
    let chunk = slice_to_vec(slice_subrange(data, off, data.len()));
    proof {
        assert(chunk@ =~= rest);
    }
    out.push(chunk);
    proof {
        assert(views_of(out@) =~= done.push(rest));
        assert(done.push(rest) =~= done + spec_chunks(rest));
    }
    out
}

} // verus!
