//! The chunk type code and the flags read off the case of its bytes.

use vstd::prelude::*;
use vstd::std_specs::convert::TryFromSpecImpl;
use vstd::string::{StringExecFns, StringSliceAdditionalSpecFns};
use vstd::utf8::{decode_utf8, encode_utf8_decode_utf8, encode_utf8_valid_utf8, valid_utf8};
use crate::ascii::{all_letters, case_bit_clear, case_bit_set, is_lower_letter, is_upper_letter};
use crate::ascii::{is_valid_chunk_ascii, lemma_case_bit_of_letter, CASE_BIT};
use crate::decimal::{append_decimal, decimal};
use crate::text::{all_letter_chars, bytes_as_chars, str_from_utf8};
use crate::text::{lemma_decode_ascii, lemma_letter_text};

verus! {

/// Why a piece of text is not a chunk type code.
#[derive(Debug, Clone, Copy, PartialEq, Eq, Structural)]
pub enum ChunkTypeError {
    /// The text is not four bytes long; the length it has is given.
    ByteLengthError(usize),
    /// Some byte of the text is not an ASCII letter.
    InvalidCharacter,
}

impl ChunkTypeError {
    /// The sentence that reports this error.
    pub open spec fn message(self) -> Seq<char> {
        match self {
            ChunkTypeError::ByteLengthError(actual) => "Expected 4 bytes but received "@ + decimal(
                actual as nat,
            ) + " when creating chunk type"@,
            ChunkTypeError::InvalidCharacter => "Input contains one or more invalid characters"@,
        }
    }

    /// The error in words.
    pub fn to_string(&self) -> (r: String)
        ensures
            r@ == self.message(),
    {
        match self {
            ChunkTypeError::ByteLengthError(actual) => {
                let mut out = String::from_str("Expected 4 bytes but received ");
                append_decimal(&mut out, *actual);
                out.append(" when creating chunk type");
                out
            },
            ChunkTypeError::InvalidCharacter => {
                String::from_str("Input contains one or more invalid characters")
            },
        }
    }
}

/// A chunk type code: four bytes, held as they stand in the file.
///
/// A code made from text holds four ASCII letters. One made from raw bytes
/// holds whatever it was given: nothing is checked on that path, so the
/// flags below are defined by the case bit alone and turning the code back
/// into text asks that its bytes be well-formed UTF-8.
#[derive(Debug, Eq, Ord)]
pub struct ChunkType {
    data: [u8; 4],
}

impl View for ChunkType {
    type V = Seq<u8>;

    closed spec fn view(&self) -> Seq<u8> {
        self.data@
    }
}

/// What parsing `bytes`, the bytes of a piece of text, comes to: the error,
/// or the bytes that the code holds.
pub open spec fn parse_outcome(bytes: Seq<u8>) -> Result<Seq<u8>, ChunkTypeError> {
    if bytes.len() != 4 {
        Err(ChunkTypeError::ByteLengthError(bytes.len() as usize))
    } else if !all_letters(bytes) {
        Err(ChunkTypeError::InvalidCharacter)
    } else {
        Ok(bytes)
    }
}

impl ChunkType {
    /// A code holds exactly four bytes.
    pub proof fn lemma_four_bytes(self)
        ensures
            self@.len() == 4,
    {
    }

    /// Codes that hold the same bytes are the same code.
    pub proof fn lemma_same_bytes_same_code(self, other: ChunkType)
        ensures
            self@ == other@ <==> self == other,
    {
        if self@ == other@ {
            assert(self.data == other.data);
        }
    }

    /// The first byte reads as upper case.
    pub open spec fn critical(self) -> bool {
        case_bit_clear(self@[0])
    }

    /// The second byte reads as upper case.
    pub open spec fn public(self) -> bool {
        case_bit_clear(self@[1])
    }

    /// The third byte reads as upper case.
    pub open spec fn reserved_bit_valid(self) -> bool {
        case_bit_clear(self@[2])
    }

    /// A code is valid when its reserved bit is, and asks no more.
    pub open spec fn valid(self) -> bool {
        self.reserved_bit_valid()
    }

    /// The fourth byte reads as lower case.
    pub open spec fn safe_to_copy(self) -> bool {
        case_bit_set(self@[3])
    }

    /// Validity and the reserved bit never part.
    pub proof fn lemma_valid_is_reserved_bit_valid(self)
        ensures
            self.valid() == self.reserved_bit_valid(),
    {
    }

    /// On a code of four letters each flag is the case of its own letter:
    /// a capital in the first three places, a small letter in the fourth.
    pub proof fn lemma_flags_of_letters(self)
        requires
            all_letters(self@),
        ensures
            self.critical() == is_upper_letter(self@[0]),
            self.public() == is_upper_letter(self@[1]),
            self.reserved_bit_valid() == is_upper_letter(self@[2]),
            self.valid() == is_upper_letter(self@[2]),
            self.safe_to_copy() == is_lower_letter(self@[3]),
    {
        lemma_case_bit_of_letter(self@[0]);
        lemma_case_bit_of_letter(self@[1]);
        lemma_case_bit_of_letter(self@[2]);
        lemma_case_bit_of_letter(self@[3]);
    }

    /// Each flag goes by its own byte: codes that agree in one place agree
    /// in the flag of that place, whatever their other bytes are.
    pub proof fn lemma_flag_reads_own_byte(self, other: ChunkType)
        ensures
            self@[0] == other@[0] ==> self.critical() == other.critical(),
            self@[1] == other@[1] ==> self.public() == other.public(),
            self@[2] == other@[2] ==> self.reserved_bit_valid() == other.reserved_bit_valid(),
            self@[2] == other@[2] ==> self.valid() == other.valid(),
            self@[3] == other@[3] ==> self.safe_to_copy() == other.safe_to_copy(),
    {
    }

    /// A code of four letters has a text: one character for each byte.
    pub proof fn lemma_letters_have_text(self)
        requires
            all_letters(self@),
        ensures
            valid_utf8(self@),
            self.text() == bytes_as_chars(self@),
    {
        lemma_decode_ascii(self@);
    }

    /// Text of four ASCII letters is read as the code that holds its bytes,
    /// and that code gives the same text back.
    pub proof fn lemma_text_round_trip(self, s: &str)
        requires
            s@.len() == 4,
            all_letter_chars(s@),
            self@ == s.spec_bytes(),
        ensures
            parse_outcome(s.spec_bytes()) == Ok::<Seq<u8>, ChunkTypeError>(self@),
            valid_utf8(self@),
            self.text() == s@,
    {
        lemma_letter_text(s);
        encode_utf8_valid_utf8(s@);
        encode_utf8_decode_utf8(s@);
    }

    /// The text of the code: its bytes decoded as UTF-8.
    pub open spec fn text(self) -> Seq<char>
        recommends
            valid_utf8(self@),
    {
        decode_utf8(self@)
    }

    /// Reads a code from text. The text must be four bytes long, each of
    /// them an ASCII letter; the length is tested first.
    pub fn from_str(s: &str) -> (r: Result<ChunkType, ChunkTypeError>)
        ensures
            match parse_outcome(s.spec_bytes()) {
                Ok(bytes) => r is Ok && r->Ok_0@ == bytes,
                Err(e) => r == Err::<ChunkType, ChunkTypeError>(e),
            },
            r is Ok ==> valid_utf8(r->Ok_0@),
    {
        let bytes = s.as_bytes();
        if bytes.len() != 4 {
            return Err(ChunkTypeError::ByteLengthError(bytes.len()));
        }
        if !is_valid_chunk_ascii(bytes) {
            return Err(ChunkTypeError::InvalidCharacter);
        }
        let sized: [u8; 4] = [bytes[0], bytes[1], bytes[2], bytes[3]];
        let made = ChunkType::try_from(sized);
        proof {
            made->Ok_0.lemma_letters_have_text();
        }
        made
    }

    /// Whether the chunk is critical: the first byte reads as upper case.
    pub fn is_critical(&self) -> (r: bool)
        ensures
            r == self.critical(),
    {
        self.data[0] & CASE_BIT == 0
    }

    /// Whether the chunk is public: the second byte reads as upper case.
    pub fn is_public(&self) -> (r: bool)
        ensures
            r == self.public(),
    {
        self.data[1] & CASE_BIT == 0
    }

    /// Whether the reserved bit is as it must be: the third byte reads as
    /// upper case.
    pub fn is_reserved_bit_valid(&self) -> (r: bool)
        ensures
            r == self.reserved_bit_valid(),
    {
        self.data[2] & CASE_BIT == 0
    }

    /// Whether the code is valid, which is to say that its reserved bit is.
    pub fn is_valid(&self) -> (r: bool)
        ensures
            r == self.valid(),
            r == self.reserved_bit_valid(),
    {
        self.is_reserved_bit_valid()
    }

    /// Whether the chunk may be copied by an editor that does not know it:
    /// the fourth byte reads as lower case.
    pub fn is_safe_to_copy(&self) -> (r: bool)
        ensures
            r == self.safe_to_copy(),
    {
        self.data[3] & CASE_BIT != 0
    }

    /// The four bytes of the code.
    pub fn bytes(&self) -> (r: [u8; 4])
        ensures
            r@ == self@,
    {
        self.data
    }

    /// The code as text, if its bytes are well-formed UTF-8.
    pub fn try_to_string(&self) -> (r: Option<String>)
        ensures
            r is Some <==> valid_utf8(self@),
            r is Some ==> r->0@ == self.text(),
    {
        match str_from_utf8(self.data.as_slice()) {
            Some(s) => {
                proof {
                    encode_utf8_decode_utf8(s@);
                }
                Some(String::from_str(s))
            },
            None => None,
        }
    }

    /// The code as text. Its bytes must be well-formed UTF-8, as those of a
    /// code read from text always are; such a code gives that text back.
    pub fn to_string(&self) -> (r: String)
        requires
            valid_utf8(self@),
        ensures
            r@ == self.text(),
    {
        self.try_to_string().unwrap()
    }
}

impl TryFrom<[u8; 4]> for ChunkType {
    type Error = ChunkTypeError;

    /// Wraps `bytes` as they are. This never fails.
    fn try_from(bytes: [u8; 4]) -> (r: Result<ChunkType, ChunkTypeError>)
        ensures
            r is Ok,
            r->Ok_0@ == bytes@,
    {
        Ok(ChunkType { data: bytes })
    }
}

impl core::str::FromStr for ChunkType {
    type Err = ChunkTypeError;

    /// Reads a code from text, as the function of this name on the type does.
    fn from_str(s: &str) -> (r: Result<ChunkType, ChunkTypeError>)
        ensures
            match parse_outcome(s.spec_bytes()) {
                Ok(bytes) => r is Ok && r->Ok_0@ == bytes,
                Err(e) => r == Err::<ChunkType, ChunkTypeError>(e),
            },
            r is Ok ==> valid_utf8(r->Ok_0@),
    {
        ChunkType::from_str(s)
    }
}

impl TryFromSpecImpl<[u8; 4]> for ChunkType {
    open spec fn obeys_try_from_spec() -> bool {
        true
    }

    closed spec fn try_from_spec(bytes: [u8; 4]) -> Result<ChunkType, ChunkTypeError> {
        Ok(ChunkType { data: bytes })
    }
}

} // verus!
