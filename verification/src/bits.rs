//! Facts about single bits in the byte that backs a flag set.
use vstd::prelude::*;

verus! {

/// A byte with exactly one of its two lowest bits set.
pub open spec fn low_bit(m: u8) -> bool {
    m == 1 || m == 2
}

/// A bit is in the union of two bytes exactly when it is in one of them.
pub proof fn lemma_union_bit(a: u8, b: u8, m: u8)
    ensures
        ((a | b) & m != 0) == ((a & m != 0) || (b & m != 0)),
{
    assert(((a | b) & m != 0) == ((a & m != 0) || (b & m != 0))) by (bit_vector);
}

/// A single bit is in the intersection of two bytes exactly when it is in both.
pub proof fn lemma_intersection_bit(a: u8, b: u8, m: u8)
    requires
        low_bit(m),
    ensures
        ((a & b) & m != 0) == ((a & m != 0) && (b & m != 0)),
{
    assert(((a & b) & m != 0) == ((a & m != 0) && (b & m != 0))) by (bit_vector)
        requires
            m == 1 || m == 2,
    ;
}

} // verus!
