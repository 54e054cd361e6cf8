//! Bytes as text: UTF-8 decoding, and what it comes to on ASCII.

use vstd::prelude::*;
use vstd::string::StringSliceAdditionalSpecFns;
use vstd::utf8::{decode_utf8, encode_utf8, valid_utf8};
use vstd::utf8::{encode_utf8_decode_utf8, encode_utf8_valid_utf8, is_ascii_chars_encode_utf8};
use crate::ascii::all_letters;

verus! {

/// Every byte of `bytes` is below 0x80.
pub open spec fn all_ascii(bytes: Seq<u8>) -> bool {
    forall|i: int| 0 <= i < bytes.len() ==> #[trigger] bytes[i] < 0x80
}

/// Each byte of `bytes` read as the character with that code.
pub open spec fn bytes_as_chars(bytes: Seq<u8>) -> Seq<char> {
    Seq::new(bytes.len(), |i: int| bytes[i] as char)
}

/// ASCII bytes are valid UTF-8, and decode to one character for each byte.
pub proof fn lemma_decode_ascii(bytes: Seq<u8>)
    requires
        all_ascii(bytes),
    ensures
        valid_utf8(bytes),
        decode_utf8(bytes) == bytes_as_chars(bytes),
{
    let chars = bytes_as_chars(bytes);
    is_ascii_chars_encode_utf8(chars);
    assert(encode_utf8(chars) =~= bytes);
    encode_utf8_valid_utf8(chars);
    encode_utf8_decode_utf8(chars);
}

/// `c` is one of `A`..=`Z` or `a`..=`z`.
pub open spec fn is_letter_char(c: char) -> bool {
    ('A' <= c <= 'Z') || ('a' <= c <= 'z')
}

/// Every character of `chars` is an ASCII letter.
pub open spec fn all_letter_chars(chars: Seq<char>) -> bool {
    forall|i: int| 0 <= i < chars.len() ==> is_letter_char(#[trigger] chars[i])
}

/// Text is made of ASCII letters exactly when its bytes are, and then it
/// has one byte for each letter.
pub proof fn lemma_letter_text(s: &str)
    ensures
        all_letter_chars(s@) <==> all_letters(s.spec_bytes()),
        all_letter_chars(s@) ==> s.spec_bytes().len() == s@.len(),
{
    let chars = s@;
    let bytes = s.spec_bytes();
    if all_letter_chars(chars) {
        is_ascii_chars_encode_utf8(chars);
    }
    if all_letters(bytes) {
        lemma_decode_ascii(bytes);
        encode_utf8_decode_utf8(chars);
    }
}

/// `core::str::from_utf8`: reads `bytes` as a string slice. The call
/// succeeds exactly when `bytes` is well-formed UTF-8, and the slice it
/// then gives is made of those same bytes.
#[verifier::external_body]
pub(crate) fn str_from_utf8(bytes: &[u8]) -> (r: Option<&str>)
    ensures
        r is Some <==> valid_utf8(bytes@),
        r is Some ==> r->0.spec_bytes() == bytes@,
{
    core::str::from_utf8(bytes).ok()
}

} // verus!
