//! Single-bit access to 64-bit words. The kernel's attribute descriptor
//! packs dozens of boolean flags into one word, and the sample selector
//! mask and read format are bitmasks as well; every flag the library sets
//! or reads goes through these functions.

use vstd::prelude::*;

verus! {

/// True when bit `i` of `w` is set.
pub open spec fn bit64(w: u64, i: u64) -> bool {
    w & (1u64 << i) != 0u64
}

/// Bit `i` of the zero word is clear, for every `i`.
pub proof fn lemma_bit64_zero()
    ensures
        forall|j: u64| !bit64(0u64, j),
{
    assert forall|j: u64| !bit64(0u64, j) by {
        assert(0u64 & (1u64 << j) == 0u64) by (bit_vector);
    }
}

proof fn lemma_set_bit64(w: u64, i: u64)
    requires
        i < 64,
    ensures
        bit64(w | (1u64 << i), i),
        !bit64(w & !(1u64 << i), i),
        forall|j: u64|
            j < 64 && j != i ==> bit64(w | (1u64 << i), j) == bit64(w, j) && bit64(
                w & !(1u64 << i),
                j,
            ) == bit64(w, j),
{
    assert((w | (1u64 << i)) & (1u64 << i) != 0 && (w & !(1u64 << i)) & (1u64 << i) == 0)
        by (bit_vector)
        requires
            i < 64,
    ;
    assert forall|j: u64| j < 64 && j != i implies bit64(w | (1u64 << i), j) == bit64(w, j)
        && bit64(w & !(1u64 << i), j) == bit64(w, j) by {
        assert(((w | (1u64 << i)) & (1u64 << j) == w & (1u64 << j)) && ((w & !(1u64 << i)) & (1u64
            << j) == w & (1u64 << j))) by (bit_vector)
            requires
                i < 64 && j < 64 && i != j,
        ;
    }
}

/// The word `w` with bit `i` forced to `v` and every other bit unchanged.
pub fn set_bit64(w: u64, i: u64, v: bool) -> (r: u64)
    requires
        i < 64,
    ensures
        bit64(r, i) == v,
        forall|j: u64| j < 64 && j != i ==> bit64(r, j) == bit64(w, j),
{
    proof {
        lemma_set_bit64(w, i);
    }
    if v {
        w | (1u64 << i)
    } else {
        w & !(1u64 << i)
    }
}

/// Reads bit `i` of `w`.
pub fn get_bit64(w: u64, i: u64) -> (r: bool)
    requires
        i < 64,
    ensures
        r == bit64(w, i),
{
    w & (1u64 << i) != 0u64
}

} // verus!
