//! Position hash keys.  Every (piece kind, colour, cell) combination, every
//! (stack layer, colour, cell) combination, the side to move and the late-
//! game marker each get one 64-bit key, generated deterministically by the
//! splitmix mixing function, so that every construction of the engine sees
//! the same keys and positions hash equally across processes.
use crate::textcodec::{dec_digits, render_u128};
use vstd::prelude::*;

verus! {

/// Two to the sixty-fourth, the modulus of 64-bit wrapping arithmetic.
pub const WORD_MODULUS: u128 = 0x10000000000000000;

/// 64-bit wrapping sum.
pub open spec fn wrap_add(a: u64, b: u64) -> u64 {
    ((a as int + b as int) % (WORD_MODULUS as int)) as u64
}

/// 64-bit wrapping product.
pub open spec fn wrap_mul(a: u64, b: u64) -> u64 {
    ((a as int * b as int) % (WORD_MODULUS as int)) as u64
}

/// The splitmix finalizer: a bijective mixing of a 64-bit word.
pub open spec fn spec_splitmix(x: u64) -> u64 {
    let z0 = wrap_add(x, 0x9E3779B97F4A7C15);
    let z1 = wrap_mul(z0 ^ (z0 >> 30), 0xBF58476D1CE4E5B9);
    let z2 = wrap_mul(z1 ^ (z1 >> 27), 0x94D049BB133111EB);
    z2 ^ (z2 >> 31)
}

/// The hash key with ordinal `i`; the key tables below lay the piece,
/// stack, side-to-move and late-game keys out over distinct ordinals.
pub open spec fn spec_key(i: int) -> u64 {
    spec_splitmix(i as u64)
}

/// Ordinal of the key for a piece of kind index `pt` and colour index `c`
/// on `cell`.
pub open spec fn piece_key_ord(pt: int, c: int, cell: int) -> int {
    (pt * 2 + c) * 128 + cell
}

/// Ordinal of the key for a stacked piece at `layer` of colour index `c`
/// on `cell`.
pub open spec fn stack_key_ord(layer: int, c: int, cell: int) -> int {
    1280 + (layer * 2 + c) * 128 + cell
}

/// Ordinal of the side-to-move key.
pub open spec fn color_key_ord() -> int {
    2304
}

/// Ordinal of the key folded in once the late-game ply threshold is passed.
pub open spec fn ply6_key_ord() -> int {
    2305
}

/// 64-bit wrapping sum.
fn wrap_add_exec(a: u64, b: u64) -> (r: u64)
    ensures
        r == wrap_add(a, b),
{
    let wide: u128 = a as u128 + b as u128;
    (wide % WORD_MODULUS) as u64
}

/// 64-bit wrapping product.
fn wrap_mul_exec(a: u64, b: u64) -> (r: u64)
    ensures
        r == wrap_mul(a, b),
{
    proof {
        vstd::arithmetic::mul::lemma_mul_upper_bound(
            a as int,
            0xFFFFFFFFFFFFFFFF,
            b as int,
            0xFFFFFFFFFFFFFFFF,
        );
    }
    let wide: u128 = a as u128 * b as u128;
    (wide % WORD_MODULUS) as u64
}

/// The splitmix finalizer.
pub fn splitmix(x: u64) -> (r: u64)
    ensures
        r == spec_splitmix(x),
{
    let z0 = wrap_add_exec(x, 0x9E3779B97F4A7C15);
    let z1 = wrap_mul_exec(z0 ^ (z0 >> 30), 0xBF58476D1CE4E5B9);
    let z2 = wrap_mul_exec(z1 ^ (z1 >> 27), 0x94D049BB133111EB);
    z2 ^ (z2 >> 31)
}

/// The hash key with ordinal `i`.
pub fn key_of(i: u64) -> (r: u64)
    ensures
        r == spec_key(i as int),
{
    splitmix(i)
}

/// XOR of the keys `base + j` over the set bits `j < n` of `bb`.
pub open spec fn xor_bits(bb: u128, base: int, n: int) -> u64
    decreases n,
{
    if n <= 0 {
        0
    } else {
        (if crate::bitboard::bit(bb, n - 1) {
            spec_key(base + n - 1)
        } else {
            0
        }) ^ xor_bits(bb, base, n - 1)
    }
}

/// Folds the keys of every set bit of `bb` into `acc`.
pub fn fold_board_keys(bb: u128, base: u64, acc: u64) -> (r: u64)
    requires
        base <= 0x10000,
    ensures
        r == acc ^ xor_bits(bb, base as int, 128),
{
    proof {
        crate::bitops::lemma_xor64_zero();
    }
    let mut r = acc;
    let mut i: u32 = 0;
    while i < 128
        invariant
            0 <= i <= 128,
            base <= 0x10000,
            r == acc ^ xor_bits(bb, base as int, i as int),
        decreases 128 - i,
    {
        if (bb >> (i as u128)) & 1 == 1 {
            let k = key_of(base + i as u64);
            proof {
                crate::bitops::lemma_xor64_rotate(acc, xor_bits(bb, base as int, i as int), k);
            }
            r = r ^ k;
        } else {
            proof {
                crate::bitops::lemma_xor64_zero();
            }
        }
        i = i + 1;
    }
    r
}

/// The full table of hash keys, kept as plain words so that tools can print
/// or ship them; the engine itself derives each key on demand.
pub struct HashKeys {
    pub piece_keys: Vec<u64>,
    pub stack_keys: Vec<u64>,
    pub color_to_move: u64,
    pub ply6: u64,
}

impl HashKeys {
    /// Whether every stored key equals the derived key of its ordinal.
    pub open spec fn wf(&self) -> bool {
        &&& self.piece_keys@.len() == 1280
        &&& self.stack_keys@.len() == 1024
        &&& forall|i: int| 0 <= i < 1280 ==> self.piece_keys@[i] == spec_key(i)
        &&& forall|i: int| 0 <= i < 1024 ==> self.stack_keys@[i] == spec_key(1280 + i)
        &&& self.color_to_move == spec_key(color_key_ord())
        &&& self.ply6 == spec_key(ply6_key_ord())
    }

    /// Builds the key table that the position hash is defined over.
    pub fn new() -> (r: HashKeys)
        ensures
            r.wf(),
    {
        let mut piece_keys: Vec<u64> = Vec::new();
        let mut i: u64 = 0;
        while i < 1280
            invariant
                0 <= i <= 1280,
                piece_keys@.len() == i,
                forall|j: int| 0 <= j < i ==> piece_keys@[j] == spec_key(j),
            decreases 1280 - i,
        {
            piece_keys.push(key_of(i));
            i = i + 1;
        }
        let mut stack_keys: Vec<u64> = Vec::new();
        let mut i: u64 = 0;
        while i < 1024
            invariant
                0 <= i <= 1024,
                stack_keys@.len() == i,
                forall|j: int| 0 <= j < i ==> stack_keys@[j] == spec_key(1280 + j),
            decreases 1024 - i,
        {
            stack_keys.push(key_of(1280 + i));
            i = i + 1;
        }
        HashKeys { piece_keys, stack_keys, color_to_move: key_of(2304), ply6: key_of(2305) }
    }

    /// Renders a key table as a bracketed list of decimal words.
    pub fn arr_to_string(arr: &Vec<u64>) -> (r: String)
        ensures
            r@.len() >= 2,
    {
        let mut s = String::from_str("[");
        proof {
            reveal_strlit("[");
        }
        let n = arr.len();
        let mut i: usize = 0;
        while i < n
            invariant
                0 <= i <= n == arr@.len(),
                s@.len() >= 1,
            decreases n - i,
        {
            s.append(render_u128(arr[i] as u128).as_str());
            s.append(", ");
            proof {
                crate::textcodec::lemma_dec_digits_wf(arr@[i as int] as nat);
            }
            i = i + 1;
        }
        s.append("];");
        proof {
            reveal_strlit("];");
        }
        s
    }
}

} // verus!
