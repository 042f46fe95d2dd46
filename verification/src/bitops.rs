//! Small executable bit helpers (population count, lowest set bit) with
//! exact contracts, and the XOR algebra lemmas that the incremental hash
//! and the make/unmake proofs lean on.
use vstd::prelude::*;

verus! {

/// Number of set bits of `bb` below position `n`.
pub open spec fn pop_below(bb: u128, n: int) -> nat
    decreases n,
{
    if n <= 0 {
        0
    } else {
        pop_below(bb, n - 1) + (if crate::bitboard::bit(bb, n - 1) {
            1nat
        } else {
            0nat
        })
    }
}

/// Number of set bits of `bb`.
pub open spec fn popcount(bb: u128) -> nat {
    pop_below(bb, 128)
}

/// Counts the set bits of `bb`.
pub fn count_ones(bb: u128) -> (r: u32)
    ensures
        r == popcount(bb),
        r <= 128,
{
    let mut r: u32 = 0;
    let mut i: u32 = 0;
    while i < 128
        invariant
            0 <= i <= 128,
            r == pop_below(bb, i as int),
            r <= i,
        decreases 128 - i,
    {
        if (bb >> (i as u128)) & 1 == 1 {
            r = r + 1;
        }
        i = i + 1;
    }
    r
}

/// Whether bit `i` of `bb` is set.
pub fn test_bit(bb: u128, i: u32) -> (r: bool)
    requires
        i < 128,
    ensures
        r == crate::bitboard::bit(bb, i as int),
{
    (bb >> (i as u128)) & 1 == 1
}

/// Position of the lowest set bit of `bb`, which must not be zero.
pub fn lowest_bit(bb: u128) -> (r: u32)
    requires
        bb != 0,
    ensures
        r < 128,
        crate::bitboard::bit(bb, r as int),
        forall|j: int| 0 <= j < r ==> !crate::bitboard::bit(bb, j),
{
    let lo = bb as u64;
    if lo != 0 {
        let r = lo.trailing_zeros();
        proof {
            vstd::std_specs::bits::axiom_u64_trailing_zeros(lo);
            lemma_low_half(bb, r as u128);
            assert forall|j: int| 0 <= j < r implies !crate::bitboard::bit(bb, j) by {
                lemma_low_half(bb, j as u128);
                assert((lo >> (j as u64)) & 1u64 == 0u64);
            }
        }
        r
    } else {
        let hi = (bb >> 64) as u64;
        proof {
            assert(hi != 0) by (bit_vector)
                requires
                    bb != 0 && bb as u64 == 0 && hi == (bb >> 64) as u64,
            ;
        }
        let r = 64 + hi.trailing_zeros();
        proof {
            vstd::std_specs::bits::axiom_u64_trailing_zeros(hi);
            lemma_high_half(bb, r as u128);
            assert forall|j: int| 0 <= j < r implies !crate::bitboard::bit(bb, j) by {
                if j < 64 {
                    lemma_low_half(bb, j as u128);
                    let j2 = j as u64;
                    assert((lo >> j2) & 1u64 == 0u64) by (bit_vector)
                        requires
                            lo == 0,
                    ;
                } else {
                    lemma_high_half(bb, j as u128);
                    assert((hi >> ((j - 64) as u64)) & 1u64 == 0u64);
                }
            }
        }
        r
    }
}

/// A low bit of a board word is the same bit of its low half.
proof fn lemma_low_half(bb: u128, j: u128)
    by (bit_vector)
    requires
        j < 64,
    ensures
        (((bb as u64) >> (j as u64)) & 1 == 1) == ((bb >> j) & 1 == 1),
{
}

/// A high bit of a board word is a bit of its high half.
proof fn lemma_high_half(bb: u128, j: u128)
    by (bit_vector)
    requires
        64 <= j < 128,
    ensures
        ((((bb >> 64) as u64) >> ((j - 64) as u64)) & 1 == 1) == ((bb >> j) & 1 == 1),
{
}

/// Testing a cell with a single-bit mask agrees with the shifted-bit test,
/// for every board word.
pub proof fn lemma_single_bit_mask(i: u128)
    by (bit_vector)
    requires
        i < 128,
    ensures
        forall|bb: u128| ((#[trigger] (bb & (1u128 << i))) > 0) == ((bb >> i) & 1 == 1),
        forall|bb: u128| ((bb & (1u128 << i)) == 0) == !((bb >> i) & 1 == 1),
{
}

/// XOR with zero changes nothing.
pub proof fn lemma_xor64_zero()
    by (bit_vector)
    ensures
        forall|a: u64| #[trigger] (a ^ 0u64) == a,
        forall|a: u64| #[trigger] (0u64 ^ a) == a,
{
}

/// Folding one more key into an accumulated XOR.
pub proof fn lemma_xor64_rotate(acc: u64, x: u64, k: u64)
    by (bit_vector)
    ensures
        (acc ^ x) ^ k == acc ^ (k ^ x),
{
}

/// A bit of a union is set exactly when it is set in either part.
pub proof fn lemma_or_bit_decompose(i: u128)
    by (bit_vector)
    requires
        i < 128,
    ensures
        forall|x: u128, y: u128|
            (((#[trigger] ((x | y) >> i)) & 1) == 1) == ((((x >> i) & 1) == 1) || (((y >> i) & 1)
                == 1)),
{
}

/// Union with the empty board changes nothing.
pub proof fn lemma_or128_zero()
    by (bit_vector)
    ensures
        forall|a: u128| #[trigger] (a | 0u128) == a,
        forall|a: u128| #[trigger] (0u128 | a) == a,
{
}

/// Clearing a set bit lowers the population count by one.
pub proof fn lemma_pop_clear_bit(x: u128, k: u128)
    requires
        k < 128,
        (x >> k) & 1 == 1,
    ensures
        popcount(x ^ (1u128 << k)) == popcount(x) - 1,
{
    lemma_pop_below_flip(x, k, 128);
}

/// Flipping a set bit below `n` lowers the partial count by one; flipping
/// one at or above `n` leaves it alone.
proof fn lemma_pop_below_flip(x: u128, k: u128, n: int)
    requires
        k < 128,
        (x >> k) & 1 == 1,
    ensures
        k < n ==> pop_below(x ^ (1u128 << k), n) == pop_below(x, n) - 1,
        k >= n ==> pop_below(x ^ (1u128 << k), n) == pop_below(x, n),
    decreases n,
{
    if n > 0 {
        lemma_pop_below_flip(x, k, n - 1);
        if k == n - 1 {
            assert(((x ^ (1u128 << k)) >> k) & 1 != 1) by (bit_vector)
                requires
                    k < 128 && (x >> k) & 1 == 1,
            ;
        } else if 0 <= n - 1 < 128 {
            let m = (n - 1) as u128;
            assert(((x ^ (1u128 << k)) >> m) & 1 == (x >> m) & 1) by (bit_vector)
                requires
                    k < 128 && m < 128 && m != k,
            ;
        }
    }
}

/// Two boards that avoid a third avoid it together, and so does any
/// masked part of one.
pub proof fn lemma_or_and_zero()
    by (bit_vector)
    ensures
        forall|a: u128, b: u128, c: u128|
            (a & c == 0 && b & c == 0) ==> (#[trigger] ((a | b) & c)) == 0,
        forall|a: u128, b: u128, c: u128| (a & c == 0) ==> (#[trigger] ((a & b) & c)) == 0,
{
}

/// Board containment is transitive, and a covered set stays covered by a
/// larger board.
pub proof fn lemma_subset_facts()
    by (bit_vector)
    ensures
        forall|a: u128, b: u128, c: u128|
            ((#[trigger] (a & !b)) == 0 && (#[trigger] (b & !c)) == 0) ==> a & !c == 0,
        forall|t: u128, v: u128, w: u128|
            ((#[trigger] (t & v)) == t && (#[trigger] (v & !w)) == 0) ==> t & w == t,
        forall|v: u128, w: u128| (#[trigger] (v & !(v | w))) == 0,
        forall|v: u128| (#[trigger] (v & !v)) == 0,
{
}

/// The empty board has no set bits to count.
pub proof fn lemma_popcount_zero()
    ensures
        popcount(0) == 0,
{
    lemma_pop_below_zero(128);
}

/// No partial count of the empty board is positive.
proof fn lemma_pop_below_zero(n: int)
    ensures
        pop_below(0, n) == 0,
    decreases n,
{
    if n > 0 {
        lemma_pop_below_zero(n - 1);
        if 0 <= n - 1 < 128 {
            let j = (n - 1) as u128;
            assert((0u128 >> j) & 1 != 1) by (bit_vector);
        }
    }
}

/// Clearing the lowest set bit is the same as toggling it.
pub proof fn lemma_clear_is_toggle(prev: u128, k: u128)
    by (bit_vector)
    requires
        k < 128,
        (prev >> k) & 1 == 1,
    ensures
        prev & !(1u128 << k) == prev ^ (1u128 << k),
{
}

} // verus!
