//! Human-readable byte counts: `600.0 B`, `1.5 MB`.
//!
//! A count is scaled by the largest power of 1024 not above it (capped
//! at terabytes) and printed with one decimal digit, rounding half to
//! even. All arithmetic is exact and integral; the decimal digit is
//! computed from the count in tenths of the chosen unit.

use vstd::prelude::*;

use crate::ascii::{ascii_bytes, ascii_to_string, chars_of_ascii};

verus! {

/// Which unit a count is shown in: 0 bytes, 1 kilobytes, … 4 terabytes.
pub open spec fn spec_unit_index(n: nat) -> nat {
    if n < 1024 {
        0
    } else if n < 1048576 {
        1
    } else if n < 1073741824 {
        2
    } else if n < 1099511627776 {
        3
    } else {
        4
    }
}

/// The divisor of each unit: 1024 to the unit's power.
pub open spec fn spec_scale(k: nat) -> int {
    if k == 0 {
        1
    } else if k == 1 {
        1024
    } else if k == 2 {
        1048576
    } else if k == 3 {
        1073741824
    } else {
        1099511627776
    }
}

/// The count in tenths of its unit, rounded half to even.
pub open spec fn rounded_tenths(n: nat) -> int {
    let den = spec_scale(spec_unit_index(n));
    let q = (n as int * 10) / den;
    let rem = (n as int * 10) % den;
    if 2 * rem > den {
        q + 1
    } else if 2 * rem == den && q % 2 == 1 {
        q + 1
    } else {
        q
    }
}

/// The decimal digits of a number, most significant first.
pub open spec fn dec_bytes(n: nat) -> Seq<u8>
    decreases n,
{
    if n < 10 {
        seq![(48 + n) as u8]
    } else {
        dec_bytes(n / 10).push((48 + n % 10) as u8)
    }
}

/// The unit suffix: `B`, `KB`, `MB`, `GB` or `TB`.
pub open spec fn unit_bytes(k: nat) -> Seq<u8> {
    if k == 0 {
        seq![66u8]
    } else if k == 1 {
        seq![75u8, 66u8]
    } else if k == 2 {
        seq![77u8, 66u8]
    } else if k == 3 {
        seq![71u8, 66u8]
    } else {
        seq![84u8, 66u8]
    }
}

/// The rendered count: whole part, `.`, one decimal digit, the unit —
/// with a space before the unit unless compact.
pub open spec fn size_bytes(n: nat, compact: bool) -> Seq<u8> {
    let t = rounded_tenths(n);
    dec_bytes((t / 10) as nat) + seq![46u8, (48 + t % 10) as u8] + (if compact {
        Seq::<u8>::empty()
    } else {
        seq![32u8]
    }) + unit_bytes(spec_unit_index(n))
}

/// What `format_size` spells.
pub open spec fn spec_format_size(n: nat) -> Seq<char> {
    chars_of_ascii(size_bytes(n, false))
}

/// What `format_size_compact` spells.
pub open spec fn spec_format_size_compact(n: nat) -> Seq<char> {
    chars_of_ascii(size_bytes(n, true))
}

/// Every decimal digit is an ASCII digit.
pub(crate) proof fn lemma_dec_bytes_ascii(n: nat)
    ensures
        forall|i: int| 0 <= i < dec_bytes(n).len() ==> 48 <= #[trigger] dec_bytes(n)[i] <= 57,
    decreases n,
{
    if n < 10 {
        assert(dec_bytes(n)[0] == (48 + n) as u8);
    } else {
        lemma_dec_bytes_ascii(n / 10);
        let inner = dec_bytes(n / 10);
        assert forall|i: int| 0 <= i < dec_bytes(n).len() implies 48 <= #[trigger] dec_bytes(n)[i]
            <= 57 by {
            if i < inner.len() {
                assert(dec_bytes(n)[i] == inner[i]);
            } else {
                assert(dec_bytes(n)[i] == (48 + n % 10) as u8);
            }
        }
    }
}

/// Appends the decimal digits of `n`.
pub(crate) fn push_decimal(out: &mut Vec<u8>, n: u128)
    ensures
        final(out)@ == old(out)@ + dec_bytes(n as nat),
    decreases n,
{
    if n < 10 {
        out.push(48 + n as u8);
        proof {
            assert(final(out)@ =~= old(out)@ + dec_bytes(n as nat));
        }
    } else {
        push_decimal(out, n / 10);
        out.push(48 + (n % 10) as u8);
        proof {
            assert(final(out)@ =~= old(out)@ + dec_bytes(n as nat));
        }
    }
}

/// Renders a byte count in its unit.
pub(crate) fn render_size(bytes: u64, compact: bool) -> (r: Vec<u8>)
    ensures
        r@ == size_bytes(bytes as nat, compact),
        ascii_bytes(r@),
{
    let k: u8 = if bytes >= 1099511627776 {
        4
    } else if bytes >= 1073741824 {
        3
    } else if bytes >= 1048576 {
        2
    } else if bytes >= 1024 {
        1
    } else {
        0
    };
    let den: u128 = if k == 4 {
        1099511627776
    } else if k == 3 {
        1073741824
    } else if k == 2 {
        1048576
    } else if k == 1 {
        1024
    } else {
        1
    };
    proof {
        assert(k as nat == spec_unit_index(bytes as nat));
        assert(den as int == spec_scale(spec_unit_index(bytes as nat)));
    }
    let num: u128 = bytes as u128 * 10;
    let q: u128 = num / den;
    let rem: u128 = num % den;
    let tenths: u128 = if 2 * rem > den {
        q + 1
    } else if 2 * rem == den && q % 2 == 1 {
        q + 1
    } else {
        q
    };
    proof {
        assert(tenths as int == rounded_tenths(bytes as nat));
    }
    let whole: u128 = tenths / 10;
    let frac: u8 = (tenths % 10) as u8;
    let mut out: Vec<u8> = Vec::new();
    push_decimal(&mut out, whole);
    out.push(46);
    out.push(48 + frac);
    if !compact {
        out.push(32);
    }
    if k == 0 {
        out.push(66);
    } else {
        if k == 1 {
            out.push(75);
        } else if k == 2 {
            out.push(77);
        } else if k == 3 {
            out.push(71);
        } else {
            out.push(84);
        }
        out.push(66);
    }
    proof {
        assert(out@ =~= size_bytes(bytes as nat, compact));
        lemma_dec_bytes_ascii(whole as nat);
        assert(ascii_bytes(out@));
    }
    out
}

/// The count with one decimal digit and a spaced unit, as the transfer
/// log prints it.
pub fn format_size(bytes: u64) -> (r: String)
    ensures
        r@ == spec_format_size(bytes as nat),
{
    let rendered = render_size(bytes, false);
    ascii_to_string(&rendered)
}

/// The count with one decimal digit and an unspaced unit, as the
/// progress line prints it.
pub fn format_size_compact(bytes: u64) -> (r: String)
    ensures
        r@ == spec_format_size_compact(bytes as nat),
{
    let rendered = render_size(bytes, true);
    ascii_to_string(&rendered)
}

} // verus!
