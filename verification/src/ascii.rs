//! Byte-level vocabulary: ASCII letters and their case bit.

use vstd::prelude::*;

verus! {

/// The bit that tells an ASCII capital from its small letter.
pub const CASE_BIT: u8 = 0x20;

/// `b` is one of `A`..=`Z`.
pub open spec fn is_upper_letter(b: u8) -> bool {
    0x41 <= b <= 0x5a
}

/// `b` is one of `a`..=`z`.
pub open spec fn is_lower_letter(b: u8) -> bool {
    0x61 <= b <= 0x7a
}

/// `b` is an ASCII letter of either case.
pub open spec fn is_letter(b: u8) -> bool {
    is_upper_letter(b) || is_lower_letter(b)
}

/// The case bit of `b` is clear: `b` reads as upper case.
pub open spec fn case_bit_clear(b: u8) -> bool {
    b & CASE_BIT == 0
}

/// The case bit of `b` is set: `b` reads as lower case.
pub open spec fn case_bit_set(b: u8) -> bool {
    b & CASE_BIT != 0
}

/// Every byte of `bytes` is an ASCII letter.
pub open spec fn all_letters(bytes: Seq<u8>) -> bool {
    forall|i: int| 0 <= i < bytes.len() ==> is_letter(#[trigger] bytes[i])
}

/// On a letter the case bit and the letter's range say the same thing.
pub proof fn lemma_case_bit_of_letter(b: u8)
    requires
        is_letter(b),
    ensures
        case_bit_clear(b) <==> is_upper_letter(b),
        case_bit_set(b) <==> is_lower_letter(b),
{
    assert((0x41 <= b <= 0x5a) ==> b & 0x20 == 0) by (bit_vector);
    assert((0x61 <= b <= 0x7a) ==> b & 0x20 != 0) by (bit_vector);
}

/// Whether `b` is an ASCII letter.
pub fn is_ascii_letter(b: u8) -> (r: bool)
    ensures
        r == is_letter(b),
{
    (b >= 0x61 && b <= 0x7a) || (b >= 0x41 && b <= 0x5a)
}

/// Whether every byte of `x` is an ASCII letter.
pub fn is_valid_chunk_ascii(x: &[u8]) -> (r: bool)
    ensures
        r == all_letters(x@),
{
    let mut i: usize = 0;
    while i < x.len()
        invariant
            i <= x.len(),
            forall|j: int| 0 <= j < i ==> is_letter(#[trigger] x@[j]),
        decreases x.len() - i,
    {
        if !is_ascii_letter(x[i]) {
            return false;
        }
        i += 1;
    }
    true
}

} // verus!
