//! Sliding accessibility: which neighbouring cells a piece at ground level
//! can slide to, honouring the freedom-to-move rule, together with the
//! perfect-hash utilities used to precompute the answer for the obstacle-
//! free case.
use crate::bitboard::{
    shift_east, shift_noea, shift_nowe, shift_soea, shift_sowe, shift_west, spec_neighbours,
    spec_shift_east, spec_shift_noea, spec_shift_nowe, spec_shift_soea, spec_shift_sowe,
    spec_shift_west,
};
use vstd::prelude::*;

verus! {

/// Whether a pair of gate cells lets a piece slide between them: both
/// must be unblocked and exactly one occupied, so the piece keeps contact
/// but is not squeezed.
pub open spec fn spec_gate_open(chk: u128, occupied: u128, obstacles: u128) -> bool {
    chk & obstacles == 0 && crate::gamerules::spec_single(chk & occupied)
}

/// Cells a piece on `field` can slide to at ground level: each neighbour
/// whose two straddling cells are unblocked and hold exactly one piece,
/// the target itself being free.
pub open spec fn spec_accessible(occupied: u128, obstacles: u128, field: u128) -> u128 {
    let nowe = spec_shift_nowe(field);
    let noea = spec_shift_noea(field);
    let sowe = spec_shift_sowe(field);
    let soea = spec_shift_soea(field);
    let east = spec_shift_east(field);
    let west = spec_shift_west(field);
    ((if spec_gate_open(west | noea, occupied, obstacles) {
        nowe
    } else {
        0
    }) | (if spec_gate_open(nowe | sowe, occupied, obstacles) {
        west
    } else {
        0
    }) | (if spec_gate_open(nowe | east, occupied, obstacles) {
        noea
    } else {
        0
    }) | (if spec_gate_open(noea | soea, occupied, obstacles) {
        east
    } else {
        0
    }) | (if spec_gate_open(soea | west, occupied, obstacles) {
        sowe
    } else {
        0
    }) | (if spec_gate_open(sowe | east, occupied, obstacles) {
        soea
    } else {
        0
    })) & !(occupied | obstacles)
}

/// Tests the freedom-to-move gate for one direction.
fn gate_open(chk: u128, occupied: u128, obstacles: u128) -> (r: bool)
    ensures
        r == spec_gate_open(chk, occupied, obstacles),
{
    let m = chk & occupied;
    chk & obstacles == 0 && m != 0 && m & (m - 1) == 0
}

/// Cells a piece on `field` can slide to at ground level, computed gate
/// by gate.
pub fn get_accessible_neighbors_slow(occupied: u128, obstacles: u128, field: u128) -> (r: u128)
    ensures
        r == spec_accessible(occupied, obstacles, field),
        r & occupied == 0,
        r & obstacles == 0,
{
    let free = !(occupied | obstacles);
    let nowe = shift_nowe(field);
    let noea = shift_noea(field);
    let sowe = shift_sowe(field);
    let soea = shift_soea(field);
    let east = shift_east(field);
    let west = shift_west(field);
    let mut ret: u128 = 0;
    if gate_open(west | noea, occupied, obstacles) {
        ret = ret | nowe;
    }
    if gate_open(nowe | sowe, occupied, obstacles) {
        ret = ret | west;
    }
    if gate_open(nowe | east, occupied, obstacles) {
        ret = ret | noea;
    }
    if gate_open(noea | soea, occupied, obstacles) {
        ret = ret | east;
    }
    if gate_open(soea | west, occupied, obstacles) {
        ret = ret | sowe;
    }
    if gate_open(sowe | east, occupied, obstacles) {
        ret = ret | soea;
    }
    let r = ret & free;
    proof {
        crate::bitops::lemma_or128_zero();
        assert(r & occupied == 0 && r & obstacles == 0) by (bit_vector)
            requires
                r == ret & !(occupied | obstacles),
        ;
    }
    r
}

/// Cells a piece on `field` can slide to at ground level.  The table-
/// driven fast path of the precomputed perfect hash is kept to the
/// utilities below; the move generator always computes the gates
/// directly, which answers identically for every input.
pub fn get_accessible_neighbors(occupied: u128, obstacles: u128, field: u128) -> (r: u128)
    ensures
        r == spec_accessible(occupied, obstacles, field),
        r & occupied == 0,
        r & obstacles == 0,
{
    get_accessible_neighbors_slow(occupied, obstacles, field)
}

/// The multiplier of the perfect hash over the six-neighbour ring.
pub const NEIGHBOR_MAGIC: u32 = 134481028;

/// The lowest set bit of a 32-bit word.
pub open spec fn spec_lowest32(m: u32) -> u32 {
    m & ((!m + 1) as u32)
}

/// Scattering the low bits of `value` along the set bits of `mask`,
/// lowest first: bit `i` of `value` lands on the i-th lowest set bit.
pub open spec fn spec_deposit(value: u32, m: u32, res: u32, i: int) -> u32
    decreases 32 - i,
{
    if m == 0 || i >= 32 {
        res
    } else {
        spec_deposit(
            value,
            m & !spec_lowest32(m),
            if (value >> i) & 1 == 1 {
                res | spec_lowest32(m)
            } else {
                res
            },
            i + 1,
        )
    }
}

/// Scatters the low bits of `value` along the set bits of `mask`,
/// lowest first.
pub fn put_along_mask(value: u32, mask: u32) -> (r: u32)
    ensures
        r == spec_deposit(value, mask, 0, 0),
        r & !mask == 0,
{
    let mut res: u32 = 0;
    let mut m = mask;
    let mut i: u32 = 0;
    proof {
        assert(0u32 & !mask == 0 && mask & !mask == 0) by (bit_vector);
    }
    while m != 0 && i < 32
        invariant
            0 <= i <= 32,
            res & !mask == 0,
            m & !mask == 0,
            spec_deposit(value, m, res, i as int) == spec_deposit(value, mask, 0, 0),
        decreases 32 - i,
    {
        proof {
            assert(!m < 0xffffffffu32) by (bit_vector)
                requires
                    m != 0,
            ;
        }
        let mask_bit: u32 = m & ((!m) + 1);
        proof {
            assert(mask_bit & !mask == 0 && (m & !mask_bit) & !mask == 0) by (bit_vector)
                requires
                    mask_bit == m & ((!m + 1) as u32),
                    m & !mask == 0,
            ;
        }
        if (value >> i) & 1 == 1 {
            let ghost prev = res;
            res = res | mask_bit;
            proof {
                assert(res & !mask == 0) by (bit_vector)
                    requires
                        res == prev | mask_bit,
                        prev & !mask == 0,
                        mask_bit & !mask == 0,
                ;
            }
        }
        m = m & !mask_bit;
        i = i + 1;
    }
    res
}

/// The multiply-shift hash as a value: the low word of the product,
/// keeping the top six bits.
pub open spec fn spec_apply_magic(magic: u32, bb: u32) -> int {
    (((bb as int * magic as int) % 0x100000000) as u32 >> 26) as int
}

/// Maps an occupancy pattern of the centred neighbour ring to its slot in
/// the lookup table: a multiply-shift perfect hash.
pub fn apply_magic(magic: u32, bb: u32) -> (r: usize)
    ensures
        r == spec_apply_magic(magic, bb),
        r < 64,
{
    proof {
        vstd::arithmetic::mul::lemma_mul_upper_bound(bb as int, 0xffffffff, magic as int, 0xffffffff);
        assert(((bb as u64 * magic as u64) % 0x100000000) as u32 >> 26 < 64) by (bit_vector);
    }
    let wide: u64 = bb as u64 * magic as u64;
    let truncated: u32 = (wide % 0x100000000) as u32;
    (truncated >> 26) as usize
}

/// Every hash of the multiply-shift lands in the 64-entry table.
proof fn lemma_apply_magic_bound(magic: u32)
    ensures
        forall|bb: u32| 0 <= #[trigger] spec_apply_magic(magic, bb) < 64,
{
    assert forall|bb: u32| 0 <= #[trigger] spec_apply_magic(magic, bb) < 64 by {
        vstd::arithmetic::mul::lemma_mul_upper_bound(
            bb as int,
            0xffffffff,
            magic as int,
            0xffffffff,
        );
        vstd::arithmetic::div_mod::lemma_mod_bound(bb as int * magic as int, 0x100000000);
        let t = ((bb as int * magic as int) % 0x100000000) as u32;
        assert(t >> 26 < 64) by (bit_vector);
    }
}

/// The ring pattern with ordinal `v`: its six low bits scattered over
/// the neighbour ring of the centre cell.
pub open spec fn spec_ring_pattern(v: u32) -> u32 {
    spec_deposit(v, (spec_neighbours(0x1000u128) % 0x100000000) as u32, 0, 0)
}

/// Checks a candidate perfect-hash multiplier: every occupancy pattern
/// of the centred ring must land in its own slot, and on success each
/// slot holds the accessible-neighbour answer of the pattern hashed to
/// it, on the empty-obstacle board the table is made for.
pub fn is_valid_magic(magic: u32) -> (r: (bool, Option<Vec<u32>>))
    ensures
        r.0 ==> r.1 is Some && r.1->Some_0@.len() == 64 && forall|v: u32|
            v < 64 ==> r.1->Some_0@[spec_apply_magic(magic, spec_ring_pattern(v))] == (
            spec_accessible(spec_ring_pattern(v) as u128, 0, 0x1000) % 0x100000000) as u32,
{
    let center: u128 = 1u128 << 12;
    proof {
        assert(1u128 << 12 == 0x1000u128) by (bit_vector);
    }
    let mut lookup: Vec<u32> = Vec::new();
    let mut filled: Vec<bool> = Vec::new();
    let mut k: usize = 0;
    while k < 64
        invariant
            lookup@.len() == k,
            filled@.len() == k,
            0 <= k <= 64,
            forall|j: int| 0 <= j < k ==> !(#[trigger] filled@[j]),
        decreases 64 - k,
    {
        lookup.push(0xffffffff);
        filled.push(false);
        k = k + 1;
    }
    let neighbor_mask = crate::bitboard::get_neighbours(center);
    let ring: u32 = (neighbor_mask % 0x100000000) as u32;
    let mut i: u32 = 0;
    while i < 64
        invariant
            0 <= i <= 64,
            lookup@.len() == 64,
            filled@.len() == 64,
            center == 0x1000u128,
            ring == (spec_neighbours(0x1000u128) % 0x100000000) as u32,
            forall|v: u32|
                v < i ==> filled@[spec_apply_magic(magic, spec_ring_pattern(v))] && lookup@[
                spec_apply_magic(magic, spec_ring_pattern(v))] == (spec_accessible(
                    spec_ring_pattern(v) as u128,
                    0,
                    0x1000,
                ) % 0x100000000) as u32,
        decreases 64 - i,
    {
        proof {
            lemma_apply_magic_bound(magic);
        }
        let bb = put_along_mask(i, ring);
        let index = apply_magic(magic, bb);
        proof {
            assert(bb == spec_ring_pattern(i));
            assert(index == spec_apply_magic(magic, spec_ring_pattern(i)));
        }
        let ghost filled0 = filled@;
        let ghost lookup0 = lookup@;
        if filled[index] {
            return (false, None);
        }
        let answer = get_accessible_neighbors_slow(bb as u128, 0, center);
        lookup[index] = (answer % 0x100000000) as u32;
        filled[index] = true;
        proof {
            assert(filled@ =~= filled0.update(index as int, true));
            assert(lookup@ =~= lookup0.update(
                index as int,
                (spec_accessible(spec_ring_pattern(i) as u128, 0, 0x1000) % 0x100000000) as u32,
            ));
            assert forall|v: u32| v < i + 1 implies filled@[spec_apply_magic(
                magic,
                spec_ring_pattern(v),
            )] && lookup@[spec_apply_magic(magic, spec_ring_pattern(v))] == (spec_accessible(
                spec_ring_pattern(v) as u128,
                0,
                0x1000,
            ) % 0x100000000) as u32 by {
                if v < i {
                    assert(filled0[spec_apply_magic(magic, spec_ring_pattern(v))]);
                    assert(spec_apply_magic(magic, spec_ring_pattern(v)) != index as int);
                }
            }
        }
        i = i + 1;
    }
    (true, Some(lookup))
}

} // verus!
