//! Bit-grid primitives for the hexagonal board.
//!
//! A board value is a `u128` where bit `row * 11 + col` stands for the cell
//! at that row and column of an 11x11 offset grid; `VALID_FIELDS` marks the
//! 91 bits that are real board cells.  The six direction shifts move every
//! set bit one step in a hex direction, masking off cells that would wrap
//! around a row boundary, so garbage never propagates past the final mask.
use vstd::prelude::*;

verus! {

/// Bits of the 91 real board cells of the hexagonal board.
pub const VALID_FIELDS: u128 = 2618206181369836630229216686713862207;

pub const SHIFT_NOWE_MASK: u128 = 2616927760382839639705131374633549824;

pub const SHIFT_NOEA_MASK: u128 = 2617566970876338134958173432248795136;

pub const SHIFT_SOWE_MASK: u128 = 36046397799141345;

pub const SHIFT_SOEA_MASK: u128 = 36902497546234103776;

pub const SHIFT_EAST_MASK: u128 = 1329877349959700883091619741417209888;

pub const SHIFT_WEST_MASK: u128 = 41548518549565135954022796120557569;

pub const SHIFT_EAST_UNSAFE_MASK: u128 = 1329877349959700883082610342602211328;

pub const SHIFT_WEST_UNSAFE_MASK: u128 = 36046397799139329;

/// Whether bit `i` of `bb` is set.
pub open spec fn bit(bb: u128, i: int) -> bool {
    0 <= i < 128 && bb >> (i as u128) & 1 == 1
}

/// One step east: bit `i` moves to bit `i + 1` unless masked off.
pub open spec fn spec_shift_east(bb: u128) -> u128 {
    (bb & !SHIFT_EAST_MASK) << 1
}

/// One step west: bit `i` moves to bit `i - 1` unless masked off.
pub open spec fn spec_shift_west(bb: u128) -> u128 {
    (bb & !SHIFT_WEST_MASK) >> 1
}

/// East shift without the wrap masking of the last column.
pub open spec fn spec_shift_east_unsafe(bb: u128) -> u128 {
    (bb & !SHIFT_EAST_UNSAFE_MASK) << 1
}

/// West shift without the wrap masking of the first column.
pub open spec fn spec_shift_west_unsafe(bb: u128) -> u128 {
    (bb & !SHIFT_WEST_UNSAFE_MASK) >> 1
}

/// One step north-west: bit `i` moves to bit `i + 11` unless masked off.
pub open spec fn spec_shift_nowe(bb: u128) -> u128 {
    (bb & !SHIFT_NOWE_MASK) << 11
}

/// One step south-east: bit `i` moves to bit `i - 11` unless masked off.
pub open spec fn spec_shift_soea(bb: u128) -> u128 {
    (bb & !SHIFT_SOEA_MASK) >> 11
}

/// One step south-west: bit `i` moves to bit `i - 12` unless masked off.
pub open spec fn spec_shift_sowe(bb: u128) -> u128 {
    (bb & !SHIFT_SOWE_MASK) >> 12
}

/// One step north-east: bit `i` moves to bit `i + 12` unless masked off.
pub open spec fn spec_shift_noea(bb: u128) -> u128 {
    (bb & !SHIFT_NOEA_MASK) << 12
}

/// Union of the six single-step shifts of `bb`, with `bb` itself removed
/// and the result masked to the real board cells.
pub open spec fn spec_neighbours(bb: u128) -> u128 {
    (spec_shift_east(bb) | spec_shift_west(bb) | spec_shift_nowe(bb) | spec_shift_soea(bb)
        | spec_shift_sowe(bb) | spec_shift_noea(bb)) & !bb & VALID_FIELDS
}

pub fn shift_east(bitboard: u128) -> (r: u128)
    ensures
        r == spec_shift_east(bitboard),
{
    (bitboard & !SHIFT_EAST_MASK) << 1
}

pub fn shift_west(bitboard: u128) -> (r: u128)
    ensures
        r == spec_shift_west(bitboard),
{
    (bitboard & !SHIFT_WEST_MASK) >> 1
}

/// East shift without the wrap masking of the last column; callers must know
/// that no set bit sits on the unmasked edge cells, or mask the result.
pub fn shift_east_unsafe(bitboard: u128) -> (r: u128)
    ensures
        r == spec_shift_east_unsafe(bitboard),
{
    (bitboard & !SHIFT_EAST_UNSAFE_MASK) << 1
}

/// West shift without the wrap masking of the first column.
pub fn shift_west_unsafe(bitboard: u128) -> (r: u128)
    ensures
        r == spec_shift_west_unsafe(bitboard),
{
    (bitboard & !SHIFT_WEST_UNSAFE_MASK) >> 1
}

pub fn shift_nowe(bitboard: u128) -> (r: u128)
    ensures
        r == spec_shift_nowe(bitboard),
{
    (bitboard & !SHIFT_NOWE_MASK) << 11
}

pub fn shift_soea(bitboard: u128) -> (r: u128)
    ensures
        r == spec_shift_soea(bitboard),
{
    (bitboard & !SHIFT_SOEA_MASK) >> 11
}

pub fn shift_sowe(bitboard: u128) -> (r: u128)
    ensures
        r == spec_shift_sowe(bitboard),
{
    (bitboard & !SHIFT_SOWE_MASK) >> 12
}

pub fn shift_noea(bitboard: u128) -> (r: u128)
    ensures
        r == spec_shift_noea(bitboard),
{
    (bitboard & !SHIFT_NOEA_MASK) << 12
}

/// The six neighbours of every set cell of `bitboard`, the cells of
/// `bitboard` themselves excluded, masked to the real board cells.
pub fn get_neighbours(bitboard: u128) -> (r: u128)
    ensures
        r == spec_neighbours(bitboard),
        r & bitboard == 0,
        r & !VALID_FIELDS == 0,
{
    let shifted_east = shift_east_unsafe(bitboard) | bitboard;
    let right_portion = shift_nowe(shifted_east) | shifted_east;
    let shifted_west = shift_west_unsafe(bitboard) | bitboard;
    let left_portion = shift_soea(shifted_west) | shifted_west;
    let r = ((left_portion | right_portion) ^ bitboard) & VALID_FIELDS;
    proof {
        lemma_neighbour_formula(bitboard);
    }
    r
}

/// The fast neighbour computation agrees with the six-way union.
proof fn lemma_neighbour_formula(bb: u128)
    by (bit_vector)
    ensures
        (((spec_shift_soea(spec_shift_west_unsafe(bb) | bb) | (spec_shift_west_unsafe(bb) | bb)) | (
        spec_shift_nowe(spec_shift_east_unsafe(bb) | bb) | (spec_shift_east_unsafe(bb) | bb))) ^ bb)
            & VALID_FIELDS == spec_neighbours(bb),
        spec_neighbours(bb) & bb == 0,
        spec_neighbours(bb) & !VALID_FIELDS == 0,
{
}

pub const SHIFT_WEST_TO_EAST_MASK: u128 = 1994816024939551324637429612125814832;

/// Two steps at once, west to east, masked against wrap-around.
pub fn shift_west_to_east(bitboard: u128) -> (r: u128)
    ensures
        r == (bitboard & !SHIFT_WEST_TO_EAST_MASK) << 2,
{
    (bitboard & !SHIFT_WEST_TO_EAST_MASK) << 2
}

pub const SHIFT_WEST_TO_NOEA_MASK: u128 = 2617891647963730640056584472224727072;

/// Two steps at once, west to noea, masked against wrap-around.
pub fn shift_west_to_noea(bitboard: u128) -> (r: u128)
    ensures
        r == (bitboard & !SHIFT_WEST_TO_NOEA_MASK) << 13,
{
    (bitboard & !SHIFT_WEST_TO_NOEA_MASK) << 13
}

pub const SHIFT_WEST_TO_NOWE_MASK: u128 = 2617566970876338134967182831063793696;

/// Two steps at once, west to nowe, masked against wrap-around.
pub fn shift_west_to_nowe(bitboard: u128) -> (r: u128)
    ensures
        r == (bitboard & !SHIFT_WEST_TO_NOWE_MASK) << 12,
{
    (bitboard & !SHIFT_WEST_TO_NOWE_MASK) << 12
}

pub const SHIFT_WEST_TO_SOEA_MASK: u128 = 1329877349959700901542868514534261744;

/// Two steps at once, west to soea, masked against wrap-around.
pub fn shift_west_to_soea(bitboard: u128) -> (r: u128)
    ensures
        r == (bitboard & !SHIFT_WEST_TO_SOEA_MASK) >> 10,
{
    (bitboard & !SHIFT_WEST_TO_SOEA_MASK) >> 10
}

pub const SHIFT_WEST_TO_SOWE_MASK: u128 = 1329877349959700883091619741417210864;

/// Two steps at once, west to sowe, masked against wrap-around.
pub fn shift_west_to_sowe(bitboard: u128) -> (r: u128)
    ensures
        r == (bitboard & !SHIFT_WEST_TO_SOWE_MASK) >> 11,
{
    (bitboard & !SHIFT_WEST_TO_SOWE_MASK) >> 11
}

pub const SHIFT_EAST_TO_WEST_MASK: u128 = 124645555648695407862068388361672707;

/// Two steps at once, east to west, masked against wrap-around.
pub fn shift_east_to_west(bitboard: u128) -> (r: u128)
    ensures
        r == (bitboard & !SHIFT_EAST_TO_WEST_MASK) >> 2,
{
    (bitboard & !SHIFT_EAST_TO_WEST_MASK) >> 2
}

pub const SHIFT_EAST_TO_NOEA_MASK: u128 = 2616927760382839639705148975413725185;

/// Two steps at once, east to noea, masked against wrap-around.
pub fn shift_east_to_noea(bitboard: u128) -> (r: u128)
    ensures
        r == (bitboard & !SHIFT_EAST_TO_NOEA_MASK) << 11,
{
    (bitboard & !SHIFT_EAST_TO_NOEA_MASK) << 11
}

pub const SHIFT_EAST_TO_NOWE_MASK: u128 = 2616948047745412669556671424826968065;

/// Two steps at once, east to nowe, masked against wrap-around.
pub fn shift_east_to_nowe(bitboard: u128) -> (r: u128)
    ensures
        r == (bitboard & !SHIFT_EAST_TO_NOWE_MASK) << 10,
{
    (bitboard & !SHIFT_EAST_TO_NOWE_MASK) << 10
}

pub const SHIFT_EAST_TO_SOEA_MASK: u128 = 41548518549565135954022796120559489;

/// Two steps at once, east to soea, masked against wrap-around.
pub fn shift_east_to_soea(bitboard: u128) -> (r: u128)
    ensures
        r == (bitboard & !SHIFT_EAST_TO_SOEA_MASK) >> 12,
{
    (bitboard & !SHIFT_EAST_TO_SOEA_MASK) >> 12
}

pub const SHIFT_EAST_TO_SOWE_MASK: u128 = 41548518549565136026115591718838147;

/// Two steps at once, east to sowe, masked against wrap-around.
pub fn shift_east_to_sowe(bitboard: u128) -> (r: u128)
    ensures
        r == (bitboard & !SHIFT_EAST_TO_SOWE_MASK) >> 13,
{
    (bitboard & !SHIFT_EAST_TO_SOWE_MASK) >> 13
}

pub const SHIFT_NOEA_TO_WEST_MASK: u128 = 41548518549565136026115591718838241;

/// Two steps at once, noea to west, masked against wrap-around.
pub fn shift_noea_to_west(bitboard: u128) -> (r: u128)
    ensures
        r == (bitboard & !SHIFT_NOEA_TO_WEST_MASK) >> 13,
{
    (bitboard & !SHIFT_NOEA_TO_WEST_MASK) >> 13
}

pub const SHIFT_NOEA_TO_EAST_MASK: u128 = 36938543944033243105;

/// Two steps at once, noea to east, masked against wrap-around.
pub fn shift_noea_to_east(bitboard: u128) -> (r: u128)
    ensures
        r == (bitboard & !SHIFT_NOEA_TO_EAST_MASK) >> 11,
{
    (bitboard & !SHIFT_NOEA_TO_EAST_MASK) >> 11
}

pub const SHIFT_NOEA_TO_NOWE_MASK: u128 = 41548518549565135954022796120559585;

/// Two steps at once, noea to nowe, masked against wrap-around.
pub fn shift_noea_to_nowe(bitboard: u128) -> (r: u128)
    ensures
        r == (bitboard & !SHIFT_NOEA_TO_NOWE_MASK) >> 1,
{
    (bitboard & !SHIFT_NOEA_TO_NOWE_MASK) >> 1
}

pub const SHIFT_NOEA_TO_SOEA_MASK: u128 = 36938543944037175265;

/// Two steps at once, noea to soea, masked against wrap-around.
pub fn shift_noea_to_soea(bitboard: u128) -> (r: u128)
    ensures
        r == (bitboard & !SHIFT_NOEA_TO_SOEA_MASK) >> 23,
{
    (bitboard & !SHIFT_NOEA_TO_SOEA_MASK) >> 23
}

pub const SHIFT_NOEA_TO_SOWE_MASK: u128 = 147682091783077896161;

/// Two steps at once, noea to sowe, masked against wrap-around.
pub fn shift_noea_to_sowe(bitboard: u128) -> (r: u128)
    ensures
        r == (bitboard & !SHIFT_NOEA_TO_SOWE_MASK) >> 24,
{
    (bitboard & !SHIFT_NOEA_TO_SOWE_MASK) >> 24
}

pub const SHIFT_NOWE_TO_WEST_MASK: u128 = 36938543944033243104;

/// Two steps at once, nowe to west, masked against wrap-around.
pub fn shift_nowe_to_west(bitboard: u128) -> (r: u128)
    ensures
        r == (bitboard & !SHIFT_NOWE_TO_WEST_MASK) >> 12,
{
    (bitboard & !SHIFT_NOWE_TO_WEST_MASK) >> 12
}

pub const SHIFT_NOWE_TO_EAST_MASK: u128 = 1329877349959700901542868514534262752;

/// Two steps at once, nowe to east, masked against wrap-around.
pub fn shift_nowe_to_east(bitboard: u128) -> (r: u128)
    ensures
        r == (bitboard & !SHIFT_NOWE_TO_EAST_MASK) >> 10,
{
    (bitboard & !SHIFT_NOWE_TO_EAST_MASK) >> 10
}

pub const SHIFT_NOWE_TO_NOEA_MASK: u128 = 1329877349959700883091619741417211872;

/// Two steps at once, nowe to noea, masked against wrap-around.
pub fn shift_nowe_to_noea(bitboard: u128) -> (r: u128)
    ensures
        r == (bitboard & !SHIFT_NOWE_TO_NOEA_MASK) << 1,
{
    (bitboard & !SHIFT_NOWE_TO_NOEA_MASK) << 1
}

pub const SHIFT_NOWE_TO_SOEA_MASK: u128 = 75613217472233678505952;

/// Two steps at once, nowe to soea, masked against wrap-around.
pub fn shift_nowe_to_soea(bitboard: u128) -> (r: u128)
    ensures
        r == (bitboard & !SHIFT_NOWE_TO_SOEA_MASK) >> 22,
{
    (bitboard & !SHIFT_NOWE_TO_SOEA_MASK) >> 22
}

pub const SHIFT_NOWE_TO_SOWE_MASK: u128 = 36938543944037240800;

/// Two steps at once, nowe to sowe, masked against wrap-around.
pub fn shift_nowe_to_sowe(bitboard: u128) -> (r: u128)
    ensures
        r == (bitboard & !SHIFT_NOWE_TO_SOWE_MASK) >> 23,
{
    (bitboard & !SHIFT_NOWE_TO_SOWE_MASK) >> 23
}

pub const SHIFT_SOEA_TO_WEST_MASK: u128 = 2616948047745412669556671424826968065;

/// Two steps at once, soea to west, masked against wrap-around.
pub fn shift_soea_to_west(bitboard: u128) -> (r: u128)
    ensures
        r == (bitboard & !SHIFT_SOEA_TO_WEST_MASK) << 10,
{
    (bitboard & !SHIFT_SOEA_TO_WEST_MASK) << 10
}

pub const SHIFT_SOEA_TO_EAST_MASK: u128 = 2617577114557624649883934656955416576;

/// Two steps at once, soea to east, masked against wrap-around.
pub fn shift_soea_to_east(bitboard: u128) -> (r: u128)
    ensures
        r == (bitboard & !SHIFT_SOEA_TO_EAST_MASK) << 12,
{
    (bitboard & !SHIFT_SOEA_TO_EAST_MASK) << 12
}

pub const SHIFT_SOEA_TO_NOEA_MASK: u128 = 2618205869255337851667077021745283072;

/// Two steps at once, soea to noea, masked against wrap-around.
pub fn shift_soea_to_noea(bitboard: u128) -> (r: u128)
    ensures
        r == (bitboard & !SHIFT_SOEA_TO_NOEA_MASK) << 23,
{
    (bitboard & !SHIFT_SOEA_TO_NOEA_MASK) << 23
}

pub const SHIFT_SOEA_TO_NOWE_MASK: u128 = 2618205557140839073122956145812570112;

/// Two steps at once, soea to nowe, masked against wrap-around.
pub fn shift_soea_to_nowe(bitboard: u128) -> (r: u128)
    ensures
        r == (bitboard & !SHIFT_SOEA_TO_NOWE_MASK) << 22,
{
    (bitboard & !SHIFT_SOEA_TO_NOWE_MASK) << 22
}

pub const SHIFT_SOEA_TO_SOWE_MASK: u128 = 2616927760382839639705148975413725185;

/// Two steps at once, soea to sowe, masked against wrap-around.
pub fn shift_soea_to_sowe(bitboard: u128) -> (r: u128)
    ensures
        r == (bitboard & !SHIFT_SOEA_TO_SOWE_MASK) >> 1,
{
    (bitboard & !SHIFT_SOEA_TO_SOWE_MASK) >> 1
}

pub const SHIFT_SOWE_TO_WEST_MASK: u128 = 2617577114557624649883934656955416576;

/// Two steps at once, sowe to west, masked against wrap-around.
pub fn shift_sowe_to_west(bitboard: u128) -> (r: u128)
    ensures
        r == (bitboard & !SHIFT_SOWE_TO_WEST_MASK) << 11,
{
    (bitboard & !SHIFT_SOWE_TO_WEST_MASK) << 11
}

pub const SHIFT_SOWE_TO_EAST_MASK: u128 = 2617891647963730640056584472224727072;

/// Two steps at once, sowe to east, masked against wrap-around.
pub fn shift_sowe_to_east(bitboard: u128) -> (r: u128)
    ensures
        r == (bitboard & !SHIFT_SOWE_TO_EAST_MASK) << 13,
{
    (bitboard & !SHIFT_SOWE_TO_EAST_MASK) << 13
}

pub const SHIFT_SOWE_TO_NOEA_MASK: u128 = 2618206025312587240948153455059402752;

/// Two steps at once, sowe to noea, masked against wrap-around.
pub fn shift_sowe_to_noea(bitboard: u128) -> (r: u128)
    ensures
        r == (bitboard & !SHIFT_SOWE_TO_NOEA_MASK) << 24,
{
    (bitboard & !SHIFT_SOWE_TO_NOEA_MASK) << 24
}

pub const SHIFT_SOWE_TO_NOWE_MASK: u128 = 2618205869255337851667077021745283072;

/// Two steps at once, sowe to nowe, masked against wrap-around.
pub fn shift_sowe_to_nowe(bitboard: u128) -> (r: u128)
    ensures
        r == (bitboard & !SHIFT_SOWE_TO_NOWE_MASK) << 23,
{
    (bitboard & !SHIFT_SOWE_TO_NOWE_MASK) << 23
}

pub const SHIFT_SOWE_TO_SOEA_MASK: u128 = 2617566970876338134967182831063793696;

/// Two steps at once, sowe to soea, masked against wrap-around.
pub fn shift_sowe_to_soea(bitboard: u128) -> (r: u128)
    ensures
        r == (bitboard & !SHIFT_SOWE_TO_SOEA_MASK) << 1,
{
    (bitboard & !SHIFT_SOWE_TO_SOEA_MASK) << 1
}

} // verus!
