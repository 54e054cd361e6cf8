//! The order of chunk type codes: that of their bytes, read left to right.

use vstd::prelude::*;
use core::cmp::Ordering;
use vstd::std_specs::cmp::{PartialEqSpec, PartialOrdSpec};
use crate::chunk_type::ChunkType;

verus! {

/// `a` comes strictly before `b`, byte by byte from the left: at the first
/// place where the two differ, `a` holds the smaller byte.
pub open spec fn lex_less(a: Seq<u8>, b: Seq<u8>) -> bool {
    exists|k: int| first_difference(a, b, k) && a[k] < b[k]
}

/// `a` and `b` agree before place `k`, which both have, and differ there.
pub open spec fn first_difference(a: Seq<u8>, b: Seq<u8>, k: int) -> bool {
    &&& 0 <= k < a.len()
    &&& k < b.len()
    &&& a[k] != b[k]
    &&& forall|j: int| 0 <= j < k ==> a[j] == b[j]
}

/// How two byte sequences of one length stand to each other.
pub open spec fn lex_order(a: Seq<u8>, b: Seq<u8>) -> Ordering {
    if a == b {
        Ordering::Equal
    } else if lex_less(a, b) {
        Ordering::Less
    } else {
        Ordering::Greater
    }
}

/// Two sequences differ first in at most one place.
pub proof fn lemma_first_difference_unique(a: Seq<u8>, b: Seq<u8>, k: int, m: int)
    requires
        first_difference(a, b, k),
        first_difference(a, b, m),
    ensures
        k == m,
{
}

/// Of two different sequences of one length, one comes before the other,
/// and never both ways round.
pub proof fn lemma_lex_total(a: Seq<u8>, b: Seq<u8>)
    requires
        a.len() == b.len(),
    ensures
        a != b ==> (lex_less(a, b) <==> !lex_less(b, a)),
        a == b ==> !lex_less(a, b) && !lex_less(b, a),
{
    if lex_less(a, b) && lex_less(b, a) {
        let k = choose|k: int| first_difference(a, b, k) && a[k] < b[k];
        let m = choose|m: int| first_difference(b, a, m) && b[m] < a[m];
        lemma_first_difference_unique(a, b, k, m);
    }
    if a != b {
        let k = lemma_differ_somewhere(a, b, 0);
        assert(first_difference(b, a, k));
    }
}

/// Sequences of one length that agree before `from` and are not equal
/// have a first place at which they differ.
proof fn lemma_differ_somewhere(a: Seq<u8>, b: Seq<u8>, from: int) -> (k: int)
    requires
        a.len() == b.len(),
        a != b,
        0 <= from <= a.len(),
        forall|j: int| 0 <= j < from ==> a[j] == b[j],
    ensures
        first_difference(a, b, k),
    decreases a.len() - from,
{
    if from == a.len() {
        assert(a =~= b);
        0
    } else if a[from] != b[from] {
        from
    } else {
        lemma_differ_somewhere(a, b, from + 1)
    }
}

/// Codes are ordered as their bytes are, read from the left: one code comes
/// before another exactly when it holds the smaller byte at the first place
/// where they differ, and two codes are level only if they hold the same
/// bytes.
pub proof fn lemma_order_is_lexicographic(a: ChunkType, b: ChunkType)
    ensures
        a.partial_cmp_spec(&b) == Some(lex_order(a@, b@)),
        lex_order(a@, b@) == Ordering::Less <==> lex_less(a@, b@),
        lex_order(a@, b@) == Ordering::Greater <==> lex_less(b@, a@),
        lex_order(a@, b@) == Ordering::Equal <==> a@ == b@,
{
    a.lemma_four_bytes();
    b.lemma_four_bytes();
    lemma_lex_total(a@, b@);
}

/// Two codes are equal exactly when they hold the same bytes, however each
/// of them was made.
pub proof fn lemma_equal_iff_same_bytes(a: ChunkType, b: ChunkType)
    ensures
        a.eq_spec(&b) <==> a@ == b@,
        a == b <==> a@ == b@,
{
    a.lemma_same_bytes_same_code(b);
}

/// The first place at which the two codes differ, if they differ at all.
pub fn first_mismatch(a: &ChunkType, b: &ChunkType) -> (r: Option<usize>)
    ensures
        r is None <==> a@ == b@,
        r is Some ==> first_difference(a@, b@, r->0 as int),
        r is Some ==> first_difference(b@, a@, r->0 as int),
{
    let x = a.bytes();
    let y = b.bytes();
    let mut i: usize = 0;
    while i < 4
        invariant
            i <= 4,
            x@ == a@,
            y@ == b@,
            forall|j: int| 0 <= j < i ==> x@[j] == y@[j],
        decreases 4 - i,
    {
        if x[i] != y[i] {
            return Some(i);
        }
        i += 1;
    }
    assert(x@ =~= y@);
    None
}

impl PartialEq for ChunkType {
    /// Whether the two codes hold the same four bytes.
    fn eq(&self, other: &ChunkType) -> (r: bool) {
        first_mismatch(self, other).is_none()
    }
}

impl vstd::std_specs::cmp::PartialEqSpecImpl for ChunkType {
    open spec fn obeys_eq_spec() -> bool {
        true
    }

    open spec fn eq_spec(&self, other: &ChunkType) -> bool {
        self@ == other@
    }
}

impl PartialOrd for ChunkType {
    /// Compares the two codes byte by byte from the left.
    fn partial_cmp(&self, other: &ChunkType) -> (r: Option<Ordering>) {
        match first_mismatch(self, other) {
            None => Some(Ordering::Equal),
            Some(k) => {
                proof {
                    self.lemma_four_bytes();
                    other.lemma_four_bytes();
                    lemma_lex_total(self@, other@);
                }
                if self.bytes()[k] < other.bytes()[k] {
                    Some(Ordering::Less)
                } else {
                    Some(Ordering::Greater)
                }
            },
        }
    }
}

impl vstd::std_specs::cmp::PartialOrdSpecImpl for ChunkType {
    open spec fn obeys_partial_cmp_spec() -> bool {
        true
    }

    open spec fn partial_cmp_spec(&self, other: &ChunkType) -> Option<Ordering> {
        Some(lex_order(self@, other@))
    }
}

} // verus!
