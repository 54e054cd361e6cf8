use png_chunk::ascii::{is_ascii_letter, is_valid_chunk_ascii, CASE_BIT};
use png_chunk::chunk_type::ChunkType;
use png_chunk::decimal::{append_decimal, digit_text};
use png_chunk::order::first_mismatch;

#[test]
fn letters_are_the_two_ascii_ranges() {
    for b in 0..=255u8 {
        assert_eq!(is_ascii_letter(b), b.is_ascii_alphabetic());
    }
}

#[test]
fn case_bit_is_the_sixth_bit() {
    assert_eq!(CASE_BIT, 32);
    assert_eq!(b'a' ^ b'A', CASE_BIT);
}

#[test]
fn all_letter_slices_are_valid() {
    assert!(is_valid_chunk_ascii(b"RuSt"));
    assert!(is_valid_chunk_ascii(b""));
    assert!(is_valid_chunk_ascii(b"a"));
    assert!(is_valid_chunk_ascii(b"AZazLongerThanFour"));
}

#[test]
fn one_bad_byte_spoils_a_slice() {
    assert!(!is_valid_chunk_ascii(b"Ru1t"));
    assert!(!is_valid_chunk_ascii(b"1uSt"));
    assert!(!is_valid_chunk_ascii(b"RuS1"));
    assert!(!is_valid_chunk_ascii(b" "));
    assert!(!is_valid_chunk_ascii(&[b'R', b'u', 0xc3, 0xa9]));
}

#[test]
fn digits_have_their_characters() {
    let expected = ["0", "1", "2", "3", "4", "5", "6", "7", "8", "9"];
    for d in 0..10usize {
        assert_eq!(digit_text(d), expected[d]);
    }
}

#[test]
fn decimal_is_appended_most_significant_first() {
    for n in [0usize, 1, 9, 10, 11, 99, 100, 101, 4096, 65535, 1_000_000, usize::MAX] {
        let mut out = String::from("n=");
        append_decimal(&mut out, n);
        assert_eq!(out, format!("n={}", n));
    }
}

#[test]
fn first_mismatch_is_the_leftmost() {
    let a = ChunkType::try_from([1, 2, 3, 4]).unwrap();
    assert_eq!(first_mismatch(&a, &ChunkType::try_from([1, 2, 3, 4]).unwrap()), None);
    assert_eq!(first_mismatch(&a, &ChunkType::try_from([9, 2, 3, 4]).unwrap()), Some(0));
    assert_eq!(first_mismatch(&a, &ChunkType::try_from([1, 9, 9, 9]).unwrap()), Some(1));
    assert_eq!(first_mismatch(&a, &ChunkType::try_from([1, 2, 0, 9]).unwrap()), Some(2));
    assert_eq!(first_mismatch(&a, &ChunkType::try_from([1, 2, 3, 5]).unwrap()), Some(3));
}
