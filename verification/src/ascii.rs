//! ASCII byte strings and their `String` form.
//!
//! The protocol's textual fields (filenames, transfer modes, error
//! messages) are NUL-terminated ASCII on the wire, so the library works
//! on bytes and turns them into `String`s only at its surface.

use vstd::prelude::*;

verus! {

/// Every byte is ASCII (below 128).
pub open spec fn ascii_bytes(bytes: Seq<u8>) -> bool {
    forall|i: int| 0 <= i < bytes.len() ==> bytes[i] < 128
}

/// The characters spelled by a sequence of ASCII bytes, one per byte.
pub open spec fn chars_of_ascii(bytes: Seq<u8>) -> Seq<char> {
    bytes.map_values(|b: u8| b as char)
}

/// Whether the whole byte string is ASCII.
pub fn all_ascii(bytes: &Vec<u8>) -> (r: bool)
    ensures
        r == ascii_bytes(bytes@),
{
    let mut i: usize = 0;
    while i < bytes.len()
        invariant
            i <= bytes@.len(),
            forall|j: int| 0 <= j < i ==> bytes@[j] < 128,
        decreases bytes@.len() - i,
    {
        if bytes[i] >= 128 {
            return false;
        }
        i = i + 1;
    }
    true
}

/// Relies on `String::from_utf8`: bytes below 128 are valid UTF-8 and
/// decode to exactly one character per byte, the character with that
/// code.
#[verifier::external_body]
pub fn ascii_to_string(bytes: &Vec<u8>) -> (r: String)
    requires
        ascii_bytes(bytes@),
    ensures
        r@ == chars_of_ascii(bytes@),
{
    String::from_utf8(bytes.clone()).unwrap_or_default()
}

} // verus!
