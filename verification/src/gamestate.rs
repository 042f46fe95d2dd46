//! The mutable game position: per-colour occupancy, per-kind piece boards,
//! the climbing stack, supply counters, ply, side to move and an
//! incrementally maintained XOR hash, together with its whitespace-
//! separated text encoding.
use crate::bitboard::bit;
use crate::bitops::{count_ones, popcount};
use crate::hashing::{
    color_key_ord, fold_board_keys, key_of, piece_key_ord, ply6_key_ord, spec_key, stack_key_ord,
    xor_bits,
};
use crate::piece_type::PieceType;
use crate::textcodec::{
    all_digits, dec_digits, dec_val, join_spaces, parse_u128, render_u128, split_spaces,
    split_spaces_exec,
};
use vstd::prelude::*;

verus! {

#[derive(Copy, Clone, PartialEq, Eq, Structural, Debug)]
pub enum Color {
    RED,
    BLUE,
}

impl Color {
    /// The other side.
    pub open spec fn spec_swap(self) -> Color {
        match self {
            Color::RED => Color::BLUE,
            Color::BLUE => Color::RED,
        }
    }

    /// Index of this side into per-colour tables.
    pub open spec fn spec_index(self) -> usize {
        match self {
            Color::RED => 0,
            Color::BLUE => 1,
        }
    }

    pub fn swap(self) -> (r: Color)
        ensures
            r == self.spec_swap(),
    {
        match self {
            Color::RED => Color::BLUE,
            Color::BLUE => Color::RED,
        }
    }

    pub fn index(self) -> (r: usize)
        ensures
            r == self.spec_index(),
    {
        match self {
            Color::RED => 0,
            Color::BLUE => 1,
        }
    }

    /// The text name of this side.
    pub open spec fn spec_string(self) -> Seq<char> {
        match self {
            Color::RED => "RED"@,
            Color::BLUE => "BLUE"@,
        }
    }

    pub fn to_string(&self) -> (r: String)
        ensures
            r@ == self.spec_string(),
    {
        match self {
            Color::RED => String::from_str("RED"),
            Color::BLUE => String::from_str("BLUE"),
        }
    }
}

/// One board word per side.
#[derive(Copy, Clone, PartialEq, Eq, Structural, Debug)]
pub struct Pair {
    pub red: u128,
    pub blue: u128,
}

impl Pair {
    /// The board of side `c`.
    pub open spec fn spec_get(self, c: Color) -> u128 {
        match c {
            Color::RED => self.red,
            Color::BLUE => self.blue,
        }
    }

    /// This pair with the board of side `c` replaced.
    pub open spec fn spec_set(self, c: Color, v: u128) -> Pair {
        match c {
            Color::RED => Pair { red: v, ..self },
            Color::BLUE => Pair { blue: v, ..self },
        }
    }

    /// The cells of either side.
    pub open spec fn spec_both(self) -> u128 {
        self.red | self.blue
    }

    pub fn get(self, c: Color) -> (r: u128)
        ensures
            r == self.spec_get(c),
    {
        match c {
            Color::RED => self.red,
            Color::BLUE => self.blue,
        }
    }

    pub fn set(self, c: Color, v: u128) -> (r: Pair)
        ensures
            r == self.spec_set(c, v),
    {
        match c {
            Color::RED => Pair { red: v, ..self },
            Color::BLUE => Pair { blue: v, ..self },
        }
    }

    pub fn both(self) -> (r: u128)
        ensures
            r == self.spec_both(),
    {
        self.red | self.blue
    }

    /// The all-zero pair.
    pub open spec fn spec_zero() -> Pair {
        Pair { red: 0, blue: 0 }
    }
}

/// Remaining supply of each piece kind for one side.
#[derive(Copy, Clone, PartialEq, Eq, Structural, Debug)]
pub struct SupplyCounts {
    pub bee: u8,
    pub ant: u8,
    pub beetle: u8,
    pub grasshopper: u8,
    pub spider: u8,
}

impl SupplyCounts {
    /// The count for kind `pt`.
    pub open spec fn spec_get(self, pt: PieceType) -> u8 {
        match pt {
            PieceType::BEE => self.bee,
            PieceType::ANT => self.ant,
            PieceType::BEETLE => self.beetle,
            PieceType::GRASSHOPPER => self.grasshopper,
            PieceType::SPIDER => self.spider,
        }
    }

    /// These counts with the count for `pt` replaced.
    pub open spec fn spec_set(self, pt: PieceType, v: u8) -> SupplyCounts {
        match pt {
            PieceType::BEE => SupplyCounts { bee: v, ..self },
            PieceType::ANT => SupplyCounts { ant: v, ..self },
            PieceType::BEETLE => SupplyCounts { beetle: v, ..self },
            PieceType::GRASSHOPPER => SupplyCounts { grasshopper: v, ..self },
            PieceType::SPIDER => SupplyCounts { spider: v, ..self },
        }
    }

    pub fn get(self, pt: PieceType) -> (r: u8)
        ensures
            r == self.spec_get(pt),
    {
        match pt {
            PieceType::BEE => self.bee,
            PieceType::ANT => self.ant,
            PieceType::BEETLE => self.beetle,
            PieceType::GRASSHOPPER => self.grasshopper,
            PieceType::SPIDER => self.spider,
        }
    }

    pub fn set(self, pt: PieceType, v: u8) -> (r: SupplyCounts)
        ensures
            r == self.spec_set(pt, v),
    {
        match pt {
            PieceType::BEE => SupplyCounts { bee: v, ..self },
            PieceType::ANT => SupplyCounts { ant: v, ..self },
            PieceType::BEETLE => SupplyCounts { beetle: v, ..self },
            PieceType::GRASSHOPPER => SupplyCounts { grasshopper: v, ..self },
            PieceType::SPIDER => SupplyCounts { spider: v, ..self },
        }
    }
}

/// Remaining supply per side.
#[derive(Copy, Clone, PartialEq, Eq, Structural, Debug)]
pub struct SupplyPair {
    pub red: SupplyCounts,
    pub blue: SupplyCounts,
}

impl SupplyPair {
    pub open spec fn spec_get(self, c: Color) -> SupplyCounts {
        match c {
            Color::RED => self.red,
            Color::BLUE => self.blue,
        }
    }

    pub open spec fn spec_set(self, c: Color, v: SupplyCounts) -> SupplyPair {
        match c {
            Color::RED => SupplyPair { red: v, ..self },
            Color::BLUE => SupplyPair { blue: v, ..self },
        }
    }

    pub fn get(self, c: Color) -> (r: SupplyCounts)
        ensures
            r == self.spec_get(c),
    {
        match c {
            Color::RED => self.red,
            Color::BLUE => self.blue,
        }
    }

    pub fn set(self, c: Color, v: SupplyCounts) -> (r: SupplyPair)
        ensures
            r == self.spec_set(c, v),
    {
        match c {
            Color::RED => SupplyPair { red: v, ..self },
            Color::BLUE => SupplyPair { blue: v, ..self },
        }
    }
}

/// A game position.
#[derive(Copy, Clone, PartialEq, Eq, Structural, Debug)]
pub struct GameState {
    /// Moves played so far; even means RED to move.
    pub ply: u8,
    /// The side to move; always agrees with `ply` in reachable positions.
    pub color_to_move: Color,
    /// Cells showing a piece of each side on top.
    pub occupied: Pair,
    /// Cells permanently blocked by terrain.
    pub obstacles: u128,
    /// The incremental position hash.
    pub hash: u64,
    pub bee: Pair,
    pub ant: Pair,
    pub beetle: Pair,
    pub grasshopper: Pair,
    pub spider: Pair,
    /// Climbing layers above the base board, lowest first.
    pub stack0: Pair,
    pub stack1: Pair,
    pub stack2: Pair,
    pub stack3: Pair,
    /// Pieces not yet placed.
    pub undeployed: SupplyPair,
}

impl GameState {
    /// The piece board pair of kind `pt`.
    pub open spec fn spec_pieces(self, pt: PieceType) -> Pair {
        match pt {
            PieceType::BEE => self.bee,
            PieceType::ANT => self.ant,
            PieceType::BEETLE => self.beetle,
            PieceType::GRASSHOPPER => self.grasshopper,
            PieceType::SPIDER => self.spider,
        }
    }

    /// This position with the piece board pair of kind `pt` replaced.
    pub open spec fn spec_with_pieces(self, pt: PieceType, v: Pair) -> GameState {
        match pt {
            PieceType::BEE => GameState { bee: v, ..self },
            PieceType::ANT => GameState { ant: v, ..self },
            PieceType::BEETLE => GameState { beetle: v, ..self },
            PieceType::GRASSHOPPER => GameState { grasshopper: v, ..self },
            PieceType::SPIDER => GameState { spider: v, ..self },
        }
    }

    /// The stack layer pair `layer`.
    pub open spec fn spec_stack(self, layer: int) -> Pair {
        if layer == 0 {
            self.stack0
        } else if layer == 1 {
            self.stack1
        } else if layer == 2 {
            self.stack2
        } else {
            self.stack3
        }
    }

    /// This position with stack layer `layer` replaced.
    pub open spec fn spec_with_stack(self, layer: int, v: Pair) -> GameState {
        if layer == 0 {
            GameState { stack0: v, ..self }
        } else if layer == 1 {
            GameState { stack1: v, ..self }
        } else if layer == 2 {
            GameState { stack2: v, ..self }
        } else {
            GameState { stack3: v, ..self }
        }
    }

    pub fn pieces(&self, pt: PieceType) -> (r: Pair)
        ensures
            r == self.spec_pieces(pt),
    {
        match pt {
            PieceType::BEE => self.bee,
            PieceType::ANT => self.ant,
            PieceType::BEETLE => self.beetle,
            PieceType::GRASSHOPPER => self.grasshopper,
            PieceType::SPIDER => self.spider,
        }
    }

    pub fn set_pieces(&mut self, pt: PieceType, v: Pair)
        ensures
            *final(self) == old(self).spec_with_pieces(pt, v),
    {
        match pt {
            PieceType::BEE => self.bee = v,
            PieceType::ANT => self.ant = v,
            PieceType::BEETLE => self.beetle = v,
            PieceType::GRASSHOPPER => self.grasshopper = v,
            PieceType::SPIDER => self.spider = v,
        }
    }

    pub fn stack(&self, layer: usize) -> (r: Pair)
        requires
            layer < 4,
        ensures
            r == self.spec_stack(layer as int),
    {
        if layer == 0 {
            self.stack0
        } else if layer == 1 {
            self.stack1
        } else if layer == 2 {
            self.stack2
        } else {
            self.stack3
        }
    }

    pub fn set_stack(&mut self, layer: usize, v: Pair)
        requires
            layer < 4,
        ensures
            *final(self) == old(self).spec_with_stack(layer as int, v),
    {
        if layer == 0 {
            self.stack0 = v;
        } else if layer == 1 {
            self.stack1 = v;
        } else if layer == 2 {
            self.stack2 = v;
        } else {
            self.stack3 = v;
        }
    }

    /// Cells occupied by either side.
    pub open spec fn spec_occupied(self) -> u128 {
        self.occupied.red | self.occupied.blue
    }

    /// Cells occupied by either side.
    pub fn occupied(&self) -> (r: u128)
        ensures
            r == self.spec_occupied(),
    {
        self.occupied.red | self.occupied.blue
    }

    /// Cells holding a piece of `color` anywhere, including buried ones.
    pub open spec fn spec_pieces_from_color(self, color: Color) -> u128 {
        self.bee.spec_get(color) | self.spider.spec_get(color) | self.grasshopper.spec_get(color)
            | self.beetle.spec_get(color) | self.ant.spec_get(color)
    }

    /// Cells holding a piece of `color` anywhere, including buried ones.
    pub fn pieces_from_color(&self, color: Color) -> (r: u128)
        ensures
            r == self.spec_pieces_from_color(color),
    {
        self.bee.get(color) | self.spider.get(color) | self.grasshopper.get(color)
            | self.beetle.get(color) | self.ant.get(color)
    }

    /// How many beetles of `color` are on the board, stacked ones included.
    pub open spec fn spec_amount_of_beetles(self, color: Color) -> nat {
        popcount(self.beetle.spec_get(color)) + popcount(self.stack0.spec_get(color)) + popcount(
            self.stack1.spec_get(color),
        ) + popcount(self.stack2.spec_get(color)) + popcount(self.stack3.spec_get(color))
    }

    pub fn amount_of_beetles_from_color(&self, color: Color) -> (r: usize)
        ensures
            r == self.spec_amount_of_beetles(color),
    {
        count_ones(self.beetle.get(color)) as usize + count_ones(self.stack0.get(color)) as usize
            + count_ones(self.stack1.get(color)) as usize + count_ones(
            self.stack2.get(color),
        ) as usize + count_ones(self.stack3.get(color)) as usize
    }

    /// The position hash: XOR of one key for every piece on its cell, one
    /// for every stacked piece, the side-to-move key when RED moves, and
    /// the late-game key once the ply threshold is passed.
    pub open spec fn spec_hash_of(self) -> u64 {
        xor_bits(self.bee.red, piece_key_ord(0, 0, 0), 128) ^ xor_bits(
            self.bee.blue,
            piece_key_ord(0, 1, 0),
            128,
        ) ^ xor_bits(self.ant.red, piece_key_ord(1, 0, 0), 128) ^ xor_bits(
            self.ant.blue,
            piece_key_ord(1, 1, 0),
            128,
        ) ^ xor_bits(self.beetle.red, piece_key_ord(2, 0, 0), 128) ^ xor_bits(
            self.beetle.blue,
            piece_key_ord(2, 1, 0),
            128,
        ) ^ xor_bits(self.grasshopper.red, piece_key_ord(3, 0, 0), 128) ^ xor_bits(
            self.grasshopper.blue,
            piece_key_ord(3, 1, 0),
            128,
        ) ^ xor_bits(self.spider.red, piece_key_ord(4, 0, 0), 128) ^ xor_bits(
            self.spider.blue,
            piece_key_ord(4, 1, 0),
            128,
        ) ^ xor_bits(self.stack0.red, stack_key_ord(0, 0, 0), 128) ^ xor_bits(
            self.stack0.blue,
            stack_key_ord(0, 1, 0),
            128,
        ) ^ xor_bits(self.stack1.red, stack_key_ord(1, 0, 0), 128) ^ xor_bits(
            self.stack1.blue,
            stack_key_ord(1, 1, 0),
            128,
        ) ^ xor_bits(self.stack2.red, stack_key_ord(2, 0, 0), 128) ^ xor_bits(
            self.stack2.blue,
            stack_key_ord(2, 1, 0),
            128,
        ) ^ xor_bits(self.stack3.red, stack_key_ord(3, 0, 0), 128) ^ xor_bits(
            self.stack3.blue,
            stack_key_ord(3, 1, 0),
            128,
        ) ^ (if self.color_to_move == Color::RED {
            spec_key(color_key_ord())
        } else {
            0
        }) ^ (if self.ply >= 6 {
            spec_key(ply6_key_ord())
        } else {
            0
        })
    }

    /// Recomputes the hash of this position from scratch.
    pub fn calculate_hash(&self) -> (r: u64)
        ensures
            r == self.spec_hash_of(),
    {
        proof {
            crate::bitops::lemma_xor64_zero();
        }
        let mut h: u64 = 0;
        h = fold_board_keys(self.bee.red, 0, h);
        h = fold_board_keys(self.bee.blue, 128, h);
        h = fold_board_keys(self.ant.red, 256, h);
        h = fold_board_keys(self.ant.blue, 384, h);
        h = fold_board_keys(self.beetle.red, 512, h);
        h = fold_board_keys(self.beetle.blue, 640, h);
        h = fold_board_keys(self.grasshopper.red, 768, h);
        h = fold_board_keys(self.grasshopper.blue, 896, h);
        h = fold_board_keys(self.spider.red, 1024, h);
        h = fold_board_keys(self.spider.blue, 1152, h);
        h = fold_board_keys(self.stack0.red, 1280, h);
        h = fold_board_keys(self.stack0.blue, 1408, h);
        h = fold_board_keys(self.stack1.red, 1536, h);
        h = fold_board_keys(self.stack1.blue, 1664, h);
        h = fold_board_keys(self.stack2.red, 1792, h);
        h = fold_board_keys(self.stack2.blue, 1920, h);
        h = fold_board_keys(self.stack3.red, 2048, h);
        h = fold_board_keys(self.stack3.blue, 2176, h);
        if matches!(self.color_to_move, Color::RED) {
            h = h ^ key_of(2304);
        }
        if self.ply >= 6 {
            h = h ^ key_of(2305);
        }
        h
    }

    /// The side whose piece shows at `at`, which must carry a stack:
    /// the colour of the highest stacked piece there, RED checked first.
    pub open spec fn spec_stack_color(self, at: int) -> Color {
        if bit(self.stack3.red, at) {
            Color::RED
        } else if bit(self.stack3.blue, at) {
            Color::BLUE
        } else if bit(self.stack2.red, at) {
            Color::RED
        } else if bit(self.stack2.blue, at) {
            Color::BLUE
        } else if bit(self.stack1.red, at) {
            Color::RED
        } else if bit(self.stack1.blue, at) {
            Color::BLUE
        } else if bit(self.stack0.red, at) {
            Color::RED
        } else {
            Color::BLUE
        }
    }

    /// The colour of the topmost stacked piece at `at`.
    pub fn stack_color(&self, at: usize) -> (r: Color)
        requires
            at < 128,
            bit(self.stack0.red, at as int) || bit(self.stack0.blue, at as int),
        ensures
            r == self.spec_stack_color(at as int),
    {
        let b: u128 = 1u128 << (at as u128);
        proof {
            crate::bitops::lemma_single_bit_mask(at as u128);
        }
        if self.stack3.red & b > 0 {
            Color::RED
        } else if self.stack3.blue & b > 0 {
            Color::BLUE
        } else if self.stack2.red & b > 0 {
            Color::RED
        } else if self.stack2.blue & b > 0 {
            Color::BLUE
        } else if self.stack1.red & b > 0 {
            Color::RED
        } else if self.stack1.blue & b > 0 {
            Color::BLUE
        } else if self.stack0.red & b > 0 {
            Color::RED
        } else {
            Color::BLUE
        }
    }

    /// The empty starting position: nothing placed, RED to move.
    pub open spec fn spec_new() -> GameState {
        GameState {
            ply: 0,
            color_to_move: Color::RED,
            occupied: Pair::spec_zero(),
            obstacles: 0,
            hash: spec_key(color_key_ord()),
            bee: Pair::spec_zero(),
            ant: Pair::spec_zero(),
            beetle: Pair::spec_zero(),
            grasshopper: Pair::spec_zero(),
            spider: Pair::spec_zero(),
            stack0: Pair::spec_zero(),
            stack1: Pair::spec_zero(),
            stack2: Pair::spec_zero(),
            stack3: Pair::spec_zero(),
            undeployed: spec_full_supply(),
        }
    }

    /// Builds the empty starting position.
    pub fn new() -> (r: GameState)
        ensures
            r == Self::spec_new(),
            r.hash == r.spec_hash_of(),
    {
        let zero = Pair { red: 0, blue: 0 };
        let mut s = GameState {
            ply: 0,
            color_to_move: Color::RED,
            occupied: zero,
            obstacles: 0,
            hash: 0,
            bee: zero,
            ant: zero,
            beetle: zero,
            grasshopper: zero,
            spider: zero,
            stack0: zero,
            stack1: zero,
            stack2: zero,
            stack3: zero,
            undeployed: SupplyPair {
                red: SupplyCounts { bee: 1, ant: 3, beetle: 2, grasshopper: 2, spider: 3 },
                blue: SupplyCounts { bee: 1, ant: 3, beetle: 2, grasshopper: 2, spider: 3 },
            },
        };
        s.hash = key_of(2304);
        proof {
            lemma_xor_bits_zero(128);
            crate::bitops::lemma_xor64_zero();
        }
        s
    }

    /// Recomputes the remaining supply from the boards: the full supply of
    /// each kind, less the pieces of that kind on the board, where beetles
    /// on stacks count as placed beetles; short supply never goes below
    /// zero.
    pub fn recalculate_undeployed(&mut self)
        ensures
            *final(self) == (GameState { undeployed: old(self).spec_recount(), ..*old(self) }),
    {
        let red = SupplyCounts {
            bee: supply_left(1, count_ones(self.bee.red)),
            ant: supply_left(3, count_ones(self.ant.red)),
            beetle: supply_left(
                2,
                count_ones(self.beetle.red) + count_ones(self.stack0.red) + count_ones(
                    self.stack1.red,
                ) + count_ones(self.stack2.red) + count_ones(self.stack3.red),
            ),
            grasshopper: supply_left(2, count_ones(self.grasshopper.red)),
            spider: supply_left(3, count_ones(self.spider.red)),
        };
        let blue = SupplyCounts {
            bee: supply_left(1, count_ones(self.bee.blue)),
            ant: supply_left(3, count_ones(self.ant.blue)),
            beetle: supply_left(
                2,
                count_ones(self.beetle.blue) + count_ones(self.stack0.blue) + count_ones(
                    self.stack1.blue,
                ) + count_ones(self.stack2.blue) + count_ones(self.stack3.blue),
            ),
            grasshopper: supply_left(2, count_ones(self.grasshopper.blue)),
            spider: supply_left(3, count_ones(self.spider.blue)),
        };
        self.undeployed = SupplyPair { red, blue };
    }

    /// The supply counts that the boards of this position stand for.
    pub open spec fn spec_recount(self) -> SupplyPair {
        SupplyPair {
            red: SupplyCounts {
                bee: spec_supply_left(1, popcount(self.bee.red)),
                ant: spec_supply_left(3, popcount(self.ant.red)),
                beetle: spec_supply_left(2, self.spec_amount_of_beetles(Color::RED)),
                grasshopper: spec_supply_left(2, popcount(self.grasshopper.red)),
                spider: spec_supply_left(3, popcount(self.spider.red)),
            },
            blue: SupplyCounts {
                bee: spec_supply_left(1, popcount(self.bee.blue)),
                ant: spec_supply_left(3, popcount(self.ant.blue)),
                beetle: spec_supply_left(2, self.spec_amount_of_beetles(Color::BLUE)),
                grasshopper: spec_supply_left(2, popcount(self.grasshopper.blue)),
                spider: spec_supply_left(3, popcount(self.spider.blue)),
            },
        }
    }
    /// Which side's piece shows at cell `i`, scanning the stack from the top
    /// with RED first, then the base piece boards with RED first.
    pub open spec fn spec_cell_owner(self, i: int) -> Option<Color> {
        if bit(self.stack0.red, i) || bit(self.stack0.blue, i) {
            Some(self.spec_stack_color(i))
        } else if bit(self.spec_pieces_from_color(Color::RED), i) {
            Some(Color::RED)
        } else if bit(self.spec_pieces_from_color(Color::BLUE), i) {
            Some(Color::BLUE)
        } else {
            None
        }
    }

    /// The occupancy board of side `c` derived from the piece boards and
    /// the stack, over the cells below `n`.
    pub open spec fn spec_occ_from(self, c: Color, n: int) -> u128
        decreases n,
    {
        if n <= 0 {
            0
        } else {
            self.spec_occ_from(c, n - 1) | (if self.spec_cell_owner(n - 1) == Some(c) {
                (1u128 << ((n - 1) as u128))
            } else {
                0
            })
        }
    }

    /// Whether the derived fields of this position agree with its boards:
    /// the occupancy pair, the hash and the supply counters all follow
    /// from the piece boards, the stack, the side to move and the ply.
    pub open spec fn coherent(self) -> bool {
        &&& self.occupied.red == self.spec_occ_from(Color::RED, 128)
        &&& self.occupied.blue == self.spec_occ_from(Color::BLUE, 128)
        &&& self.hash == self.spec_hash_of()
        &&& self.undeployed == self.spec_recount()
    }

    /// Recomputes the occupancy pair from the piece boards and the stack.
    pub fn derive_occupied(&mut self)
        ensures
            *final(self) == (GameState {
                occupied: Pair {
                    red: old(self).spec_occ_from(Color::RED, 128),
                    blue: old(self).spec_occ_from(Color::BLUE, 128),
                },
                ..*old(self)
            }),
    {
        let ghost orig = *self;
        let mut red: u128 = 0;
        let mut blue: u128 = 0;
        let red_pieces = self.pieces_from_color(Color::RED);
        let blue_pieces = self.pieces_from_color(Color::BLUE);
        let stacked = self.stack0.red | self.stack0.blue;
        let mut i: u32 = 0;
        while i < 128
            invariant
                0 <= i <= 128,
                *self == orig,
                red_pieces == orig.spec_pieces_from_color(Color::RED),
                blue_pieces == orig.spec_pieces_from_color(Color::BLUE),
                stacked == orig.stack0.red | orig.stack0.blue,
                red == orig.spec_occ_from(Color::RED, i as int),
                blue == orig.spec_occ_from(Color::BLUE, i as int),
            decreases 128 - i,
        {
            proof {
                crate::bitops::lemma_single_bit_mask(i as u128);
                crate::bitops::lemma_or_bit_decompose(i as u128);
                crate::bitops::lemma_or128_zero();
            }
            let b: u128 = 1u128 << (i as u128);
            if stacked & b > 0 {
                if matches!(self.stack_color(i as usize), Color::RED) {
                    red = red | b;
                } else {
                    blue = blue | b;
                }
            } else if red_pieces & b > 0 {
                red = red | b;
            } else if blue_pieces & b > 0 {
                blue = blue | b;
            }
            i = i + 1;
        }
        self.occupied = Pair { red, blue };
    }

    /// The 21 whitespace-separated tokens of the text encoding: ply, side
    /// to move, obstacles, the four stack layers of each side, then the
    /// five piece boards of each side, all numbers in decimal.
    pub open spec fn spec_fen_tokens(self) -> Seq<Seq<char>> {
        seq![
            dec_digits(self.ply as nat),
            self.color_to_move.spec_string(),
            dec_digits(self.obstacles as nat),
            dec_digits(self.stack0.red as nat),
            dec_digits(self.stack1.red as nat),
            dec_digits(self.stack2.red as nat),
            dec_digits(self.stack3.red as nat),
            dec_digits(self.stack0.blue as nat),
            dec_digits(self.stack1.blue as nat),
            dec_digits(self.stack2.blue as nat),
            dec_digits(self.stack3.blue as nat),
            dec_digits(self.bee.red as nat),
            dec_digits(self.ant.red as nat),
            dec_digits(self.beetle.red as nat),
            dec_digits(self.grasshopper.red as nat),
            dec_digits(self.spider.red as nat),
            dec_digits(self.bee.blue as nat),
            dec_digits(self.ant.blue as nat),
            dec_digits(self.beetle.blue as nat),
            dec_digits(self.grasshopper.blue as nat),
            dec_digits(self.spider.blue as nat),
        ]
    }

    /// Serializes this position as its 21-token text encoding.
    pub fn to_fen(&self) -> (r: String)
        ensures
            r@ == join_spaces(self.spec_fen_tokens()),
    {
        let mut toks: Vec<String> = Vec::new();
        toks.push(render_u128(self.ply as u128));
        toks.push(self.color_to_move.to_string());
        toks.push(render_u128(self.obstacles));
        toks.push(render_u128(self.stack0.red));
        toks.push(render_u128(self.stack1.red));
        toks.push(render_u128(self.stack2.red));
        toks.push(render_u128(self.stack3.red));
        toks.push(render_u128(self.stack0.blue));
        toks.push(render_u128(self.stack1.blue));
        toks.push(render_u128(self.stack2.blue));
        toks.push(render_u128(self.stack3.blue));
        toks.push(render_u128(self.bee.red));
        toks.push(render_u128(self.ant.red));
        toks.push(render_u128(self.beetle.red));
        toks.push(render_u128(self.grasshopper.red));
        toks.push(render_u128(self.spider.red));
        toks.push(render_u128(self.bee.blue));
        toks.push(render_u128(self.ant.blue));
        toks.push(render_u128(self.beetle.blue));
        toks.push(render_u128(self.grasshopper.blue));
        toks.push(render_u128(self.spider.blue));
        proof {
            assert(toks@.map_values(|t: String| t@) =~= self.spec_fen_tokens());
        }
        crate::textcodec::join_tokens(&toks)
    }

    /// The position a text encoding stands for, when its shape is good:
    /// 21 tokens, a ply that fits eight bits, a side-to-move name, and
    /// board numbers that fit the board word; the occupancy, hash and
    /// supply of the result are recomputed from the parsed boards.
    pub open spec fn spec_parse_fen(sv: Seq<char>) -> Option<GameState> {
        let toks = split_spaces(sv);
        if toks.len() != 21 {
            None
        } else if !(all_digits(toks[0]) && toks[0].len() > 0 && dec_val(toks[0]) <= 255) {
            None
        } else if spec_color_token(toks[1]) is None {
            None
        } else if !(forall|i: int|
            2 <= i < 21 ==> all_digits(#[trigger] toks[i]) && toks[i].len() > 0 && dec_val(toks[i])
                <= u128::MAX) {
            None
        } else {
            Some(
                GameState::spec_assemble(
                    dec_val(toks[0]) as u8,
                    spec_color_token(toks[1])->Some_0,
                    dec_val(toks[2]) as u128,
                    dec_val(toks[3]) as u128,
                    dec_val(toks[4]) as u128,
                    dec_val(toks[5]) as u128,
                    dec_val(toks[6]) as u128,
                    dec_val(toks[7]) as u128,
                    dec_val(toks[8]) as u128,
                    dec_val(toks[9]) as u128,
                    dec_val(toks[10]) as u128,
                    dec_val(toks[11]) as u128,
                    dec_val(toks[12]) as u128,
                    dec_val(toks[13]) as u128,
                    dec_val(toks[14]) as u128,
                    dec_val(toks[15]) as u128,
                    dec_val(toks[16]) as u128,
                    dec_val(toks[17]) as u128,
                    dec_val(toks[18]) as u128,
                    dec_val(toks[19]) as u128,
                    dec_val(toks[20]) as u128,
                ),
            )
        }
    }

    /// The position assembled from parsed fields, derived fields included.
    pub open spec fn spec_assemble(
        ply: u8,
        ctm: Color,
        obstacles: u128,
        s0r: u128,
        s1r: u128,
        s2r: u128,
        s3r: u128,
        s0b: u128,
        s1b: u128,
        s2b: u128,
        s3b: u128,
        beer: u128,
        antr: u128,
        beetler: u128,
        ghr: u128,
        spiderr: u128,
        beeb: u128,
        antb: u128,
        beetleb: u128,
        ghb: u128,
        spiderb: u128,
    ) -> GameState {
        let base = GameState {
            ply,
            color_to_move: ctm,
            occupied: Pair::spec_zero(),
            obstacles,
            hash: 0,
            bee: Pair { red: beer, blue: beeb },
            ant: Pair { red: antr, blue: antb },
            beetle: Pair { red: beetler, blue: beetleb },
            grasshopper: Pair { red: ghr, blue: ghb },
            spider: Pair { red: spiderr, blue: spiderb },
            stack0: Pair { red: s0r, blue: s0b },
            stack1: Pair { red: s1r, blue: s1b },
            stack2: Pair { red: s2r, blue: s2b },
            stack3: Pair { red: s3r, blue: s3b },
            undeployed: spec_full_supply(),
        };
        let with_occ = GameState {
            occupied: Pair {
                red: base.spec_occ_from(Color::RED, 128),
                blue: base.spec_occ_from(Color::BLUE, 128),
            },
            ..base
        };
        let with_hash = GameState { hash: with_occ.spec_hash_of(), ..with_occ };
        GameState { undeployed: with_hash.spec_recount(), ..with_hash }
    }

    /// Parses the 21-token text encoding of a position.
    pub fn from_fen(fen: String) -> (r: Option<GameState>)
        requires
            fen.is_ascii(),
        ensures
            r == Self::spec_parse_fen(fen@),
    {
        let toks = split_spaces_exec(&fen);
        if toks.len() != 21 {
            return None;
        }
        let ply128 = match parse_u128(&toks[0]) {
            Some(v) => v,
            None => {
                return None;
            },
        };
        if ply128 > 255 {
            return None;
        }
        let ctm = if crate::textcodec::token_matches_ci(&toks[1], "RED") {
            Color::RED
        } else if crate::textcodec::token_matches_ci(&toks[1], "BLUE") {
            Color::BLUE
        } else {
            return None;
        };
        let mut nums: Vec<u128> = Vec::new();
        let mut i: usize = 2;
        while i < 21
            invariant
                2 <= i <= 21,
                toks@.len() == 21,
                nums@.len() == i - 2,
                forall|j: int|
                    2 <= j < i ==> all_digits(#[trigger] split_spaces(fen@)[j]) && split_spaces(
                        fen@,
                    )[j].len() > 0 && dec_val(split_spaces(fen@)[j]) <= u128::MAX,
                forall|j: int|
                    0 <= j < i - 2 ==> #[trigger] nums@[j] == dec_val(split_spaces(fen@)[j + 2]),
                toks@.map_values(|t: String| t@) == split_spaces(fen@),
            decreases 21 - i,
        {
            match parse_u128(&toks[i]) {
                Some(v) => {
                    nums.push(v);
                },
                None => {
                    return None;
                },
            }
            i = i + 1;
        }
        let mut s = GameState {
            ply: ply128 as u8,
            color_to_move: ctm,
            occupied: Pair { red: 0, blue: 0 },
            obstacles: nums[0],
            hash: 0,
            bee: Pair { red: nums[9], blue: nums[14] },
            ant: Pair { red: nums[10], blue: nums[15] },
            beetle: Pair { red: nums[11], blue: nums[16] },
            grasshopper: Pair { red: nums[12], blue: nums[17] },
            spider: Pair { red: nums[13], blue: nums[18] },
            stack0: Pair { red: nums[1], blue: nums[5] },
            stack1: Pair { red: nums[2], blue: nums[6] },
            stack2: Pair { red: nums[3], blue: nums[7] },
            stack3: Pair { red: nums[4], blue: nums[8] },
            undeployed: SupplyPair {
                red: SupplyCounts { bee: 1, ant: 3, beetle: 2, grasshopper: 2, spider: 3 },
                blue: SupplyCounts { bee: 1, ant: 3, beetle: 2, grasshopper: 2, spider: 3 },
            },
        };
        s.derive_occupied();
        let h = s.calculate_hash();
        s.hash = h;
        s.recalculate_undeployed();
        Some(s)
    }

    /// What cell `index` shows: blocked terrain, a piece kind, or free,
    /// piece kinds checked in generation order with buried pieces seen.
    pub open spec fn spec_field_type(self, index: int) -> crate::fieldtype::FieldType {
        if bit(self.obstacles, index) {
            crate::fieldtype::FieldType::BLOCKED
        } else if bit(self.bee.red | self.bee.blue, index) {
            crate::fieldtype::FieldType::USED(PieceType::BEE)
        } else if bit(self.beetle.red | self.beetle.blue, index) {
            crate::fieldtype::FieldType::USED(PieceType::BEETLE)
        } else if bit(self.ant.red | self.ant.blue, index) {
            crate::fieldtype::FieldType::USED(PieceType::ANT)
        } else if bit(self.grasshopper.red | self.grasshopper.blue, index) {
            crate::fieldtype::FieldType::USED(PieceType::GRASSHOPPER)
        } else if bit(self.spider.red | self.spider.blue, index) {
            crate::fieldtype::FieldType::USED(PieceType::SPIDER)
        } else {
            crate::fieldtype::FieldType::FREE
        }
    }

    /// What cell `index` shows.
    pub fn field_type(&self, index: usize) -> (r: crate::fieldtype::FieldType)
        requires
            index < 128,
        ensures
            r == self.spec_field_type(index as int),
    {
        proof {
            crate::bitops::lemma_single_bit_mask(index as u128);
        }
        let b: u128 = 1u128 << (index as u128);
        if self.obstacles & b > 0 {
            crate::fieldtype::FieldType::BLOCKED
        } else if (self.bee.red | self.bee.blue) & b > 0 {
            crate::fieldtype::FieldType::USED(PieceType::BEE)
        } else if (self.beetle.red | self.beetle.blue) & b > 0 {
            crate::fieldtype::FieldType::USED(PieceType::BEETLE)
        } else if (self.ant.red | self.ant.blue) & b > 0 {
            crate::fieldtype::FieldType::USED(PieceType::ANT)
        } else if (self.grasshopper.red | self.grasshopper.blue) & b > 0 {
            crate::fieldtype::FieldType::USED(PieceType::GRASSHOPPER)
        } else if (self.spider.red | self.spider.blue) & b > 0 {
            crate::fieldtype::FieldType::USED(PieceType::SPIDER)
        } else {
            crate::fieldtype::FieldType::FREE
        }
    }

    /// Draws a board word as an 11-row grid, highest row first, with a
    /// mark on every set cell.
    pub fn bb_to_string(bb: u128) -> (r: String)
        ensures
            r@.len() > 0,
    {
        let mut s = String::new();
        let mut row: usize = 11;
        while row > 0
            invariant
                row <= 11,
            decreases row,
        {
            let mut col: usize = 0;
            while col < 11
                invariant
                    col <= 11,
                    1 <= row <= 11,
                decreases 11 - col,
            {
                let idx = (row - 1) * 11 + col;
                if crate::bitops::test_bit(bb, idx as u32) {
                    s.append("X");
                } else {
                    s.append(".");
                }
                col = col + 1;
            }
            s.append("\n");
            row = row - 1;
        }
        if s.as_str().unicode_len() == 0 {
            s.append("\n");
            proof {
                reveal_strlit("\n");
            }
        }
        s
    }
}

/// The side a colour token names, in any mix of letter cases.
pub open spec fn spec_color_token(t: Seq<char>) -> Option<Color> {
    if crate::textcodec::token_ieq(t, "RED"@) {
        Some(Color::RED)
    } else if crate::textcodec::token_ieq(t, "BLUE"@) {
        Some(Color::BLUE)
    } else {
        None
    }
}

/// The full supply of both sides.
pub open spec fn spec_full_supply() -> SupplyPair {
    SupplyPair {
        red: SupplyCounts { bee: 1, ant: 3, beetle: 2, grasshopper: 2, spider: 3 },
        blue: SupplyCounts { bee: 1, ant: 3, beetle: 2, grasshopper: 2, spider: 3 },
    }
}

/// Supply left over after `placed` pieces, not going below zero.
pub open spec fn spec_supply_left(supply: nat, placed: nat) -> u8 {
    if placed >= supply {
        0
    } else {
        (supply - placed) as u8
    }
}

/// Supply left over after `placed` pieces, not going below zero.
fn supply_left(supply: u32, placed: u32) -> (r: u8)
    requires
        supply <= 3,
    ensures
        r == spec_supply_left(supply as nat, placed as nat),
{
    if placed >= supply {
        0
    } else {
        (supply - placed) as u8
    }
}

/// A board with no set bits folds to the zero key contribution.
pub proof fn lemma_xor_bits_zero(n: int)
    ensures
        forall|base: int| #[trigger] xor_bits(0, base, n) == 0,
    decreases n,
{
    if n > 0 {
        lemma_xor_bits_zero(n - 1);
        crate::bitops::lemma_xor64_zero();
        assert(!bit(0, n - 1)) by {
            if 0 <= n - 1 < 128 {
                let j = (n - 1) as u128;
                assert((0u128 >> j) & 1 != 1) by (bit_vector);
            }
        }
        assert forall|base: int| #[trigger] xor_bits(0, base, n) == 0 by {
            assert(xor_bits(0, base, n) == 0u64 ^ xor_bits(0, base, n - 1));
            assert(xor_bits(0, base, n - 1) == 0);
        }
    }
}

/// No decimal digit string holds a space.
proof fn lemma_no_space_in_digits(n: nat)
    ensures
        forall|j: int| 0 <= j < dec_digits(n).len() ==> dec_digits(n)[j] != ' ',
{
    crate::textcodec::lemma_dec_digits_wf(n);
}

/// Board words derived from the piece boards and the stack agree between
/// two positions whose piece boards and stack agree.
proof fn lemma_occ_from_boards(s1: GameState, s2: GameState, c: Color, n: int)
    requires
        s1.bee == s2.bee,
        s1.ant == s2.ant,
        s1.beetle == s2.beetle,
        s1.grasshopper == s2.grasshopper,
        s1.spider == s2.spider,
        s1.stack0 == s2.stack0,
        s1.stack1 == s2.stack1,
        s1.stack2 == s2.stack2,
        s1.stack3 == s2.stack3,
    ensures
        s1.spec_occ_from(c, n) == s2.spec_occ_from(c, n),
    decreases n,
{
    if n > 0 {
        lemma_occ_from_boards(s1, s2, c, n - 1);
    }
}

/// Reading a position back from its text encoding restores every field,
/// as long as the position's derived fields agree with its boards, as
/// they do in every position reached by legal play.
pub proof fn lemma_fen_round_trip(p: GameState)
    requires
        p.coherent(),
    ensures
        GameState::spec_parse_fen(join_spaces(p.spec_fen_tokens())) == Some(p),
{
    let toks = p.spec_fen_tokens();
    reveal_strlit("RED");
    reveal_strlit("red");
    reveal_strlit("BLUE");
    reveal_strlit("blue");
    lemma_no_space_in_digits(p.ply as nat);
    lemma_no_space_in_digits(p.obstacles as nat);
    lemma_no_space_in_digits(p.stack0.red as nat);
    lemma_no_space_in_digits(p.stack1.red as nat);
    lemma_no_space_in_digits(p.stack2.red as nat);
    lemma_no_space_in_digits(p.stack3.red as nat);
    lemma_no_space_in_digits(p.stack0.blue as nat);
    lemma_no_space_in_digits(p.stack1.blue as nat);
    lemma_no_space_in_digits(p.stack2.blue as nat);
    lemma_no_space_in_digits(p.stack3.blue as nat);
    lemma_no_space_in_digits(p.bee.red as nat);
    lemma_no_space_in_digits(p.ant.red as nat);
    lemma_no_space_in_digits(p.beetle.red as nat);
    lemma_no_space_in_digits(p.grasshopper.red as nat);
    lemma_no_space_in_digits(p.spider.red as nat);
    lemma_no_space_in_digits(p.bee.blue as nat);
    lemma_no_space_in_digits(p.ant.blue as nat);
    lemma_no_space_in_digits(p.beetle.blue as nat);
    lemma_no_space_in_digits(p.grasshopper.blue as nat);
    lemma_no_space_in_digits(p.spider.blue as nat);
    assert forall|i: int, j: int|
        0 <= i < toks.len() && 0 <= j < toks[i].len() implies #[trigger] toks[i][j] != ' ' by {
        if i == 1 {
            assert(toks[1] == p.color_to_move.spec_string());
        }
    }
    crate::textcodec::lemma_split_join(toks);
    let back = split_spaces(join_spaces(toks));
    assert(back == toks);
    crate::textcodec::lemma_dec_round_trip(p.ply as nat);
    crate::textcodec::lemma_dec_round_trip(p.obstacles as nat);
    crate::textcodec::lemma_dec_round_trip(p.stack0.red as nat);
    crate::textcodec::lemma_dec_round_trip(p.stack1.red as nat);
    crate::textcodec::lemma_dec_round_trip(p.stack2.red as nat);
    crate::textcodec::lemma_dec_round_trip(p.stack3.red as nat);
    crate::textcodec::lemma_dec_round_trip(p.stack0.blue as nat);
    crate::textcodec::lemma_dec_round_trip(p.stack1.blue as nat);
    crate::textcodec::lemma_dec_round_trip(p.stack2.blue as nat);
    crate::textcodec::lemma_dec_round_trip(p.stack3.blue as nat);
    crate::textcodec::lemma_dec_round_trip(p.bee.red as nat);
    crate::textcodec::lemma_dec_round_trip(p.ant.red as nat);
    crate::textcodec::lemma_dec_round_trip(p.beetle.red as nat);
    crate::textcodec::lemma_dec_round_trip(p.grasshopper.red as nat);
    crate::textcodec::lemma_dec_round_trip(p.spider.red as nat);
    crate::textcodec::lemma_dec_round_trip(p.bee.blue as nat);
    crate::textcodec::lemma_dec_round_trip(p.ant.blue as nat);
    crate::textcodec::lemma_dec_round_trip(p.beetle.blue as nat);
    crate::textcodec::lemma_dec_round_trip(p.grasshopper.blue as nat);
    crate::textcodec::lemma_dec_round_trip(p.spider.blue as nat);
    crate::textcodec::lemma_dec_digits_wf(p.ply as nat);
    assert(spec_color_token(toks[1]) == Some(p.color_to_move));
    assert forall|i: int|
        2 <= i < 21 implies all_digits(#[trigger] back[i]) && back[i].len() > 0 && dec_val(back[i])
        <= u128::MAX by {
        crate::textcodec::lemma_dec_digits_wf(dec_val(back[i]));
    }
    let q = GameState::spec_parse_fen(join_spaces(toks))->Some_0;
    let base = GameState {
        ply: p.ply,
        color_to_move: p.color_to_move,
        occupied: Pair::spec_zero(),
        obstacles: p.obstacles,
        hash: 0,
        bee: p.bee,
        ant: p.ant,
        beetle: p.beetle,
        grasshopper: p.grasshopper,
        spider: p.spider,
        stack0: p.stack0,
        stack1: p.stack1,
        stack2: p.stack2,
        stack3: p.stack3,
        undeployed: spec_full_supply(),
    };
    lemma_occ_from_boards(base, p, Color::RED, 128);
    lemma_occ_from_boards(base, p, Color::BLUE, 128);
    assert(q == p);
}

/// Relies on rand::random_range over `0..121`: a uniformly drawn board
/// index strictly below 121.  Nothing more is assumed of the draw; the
/// caller is verified for every value that can come back.
#[verifier::external_body]
fn random_board_index() -> (r: u32)
    ensures
        r < 121,
{
    rand::random_range(0u32..121)
}

/// Three is the number of blocked cells a fresh board receives.
proof fn lemma_popcount_of_three_cells(n: int)
    requires
        3 <= n <= 128,
    ensures
        crate::bitops::pop_below(7, n) == 3,
    decreases n,
{
    if n > 3 {
        lemma_popcount_of_three_cells(n - 1);
        let j = (n - 1) as u128;
        assert((7u128 >> j) & 1 != 1) by (bit_vector)
            requires
                3 <= j < 128,
        ;
    } else {
        assert((7u128 >> 0u128) & 1 == 1 && (7u128 >> 1u128) & 1 == 1 && (7u128 >> 2u128) & 1
            == 1) by (bit_vector);
        assert(crate::bitops::pop_below(7, 0) == 0);
        assert(crate::bitops::pop_below(7, 1) == 1);
        assert(crate::bitops::pop_below(7, 2) == 2);
        assert(crate::bitops::pop_below(7, 3) == 3);
    }
}

impl GameState {
    /// A fresh starting position with three randomly placed blocked
    /// cells, used to vary opening play between games.
    pub fn random() -> (r: GameState)
        ensures
            r == (GameState { obstacles: r.obstacles, ..Self::spec_new() }),
            popcount(r.obstacles) == 3,
            r.obstacles & !crate::bitboard::VALID_FIELDS == 0,
    {
        let mut res = GameState::new();
        let mut obstacles: u128 = 0;
        let mut count: u32 = 0;
        let mut fuel: u32 = 0;
        proof {
            crate::bitops::lemma_popcount_zero();
            assert(0u128 & !crate::bitboard::VALID_FIELDS == 0) by (bit_vector);
        }
        while count < 3 && fuel < 4096
            invariant
                count == popcount(obstacles),
                count <= 3,
                obstacles & !crate::bitboard::VALID_FIELDS == 0,
            decreases 4096 - fuel,
        {
            let pos = random_board_index();
            let b: u128 = 1u128 << (pos as u128);
            if b & crate::bitboard::VALID_FIELDS > 0 && obstacles & b == 0 {
                let ghost before = obstacles;
                obstacles = obstacles | b;
                proof {
                    lemma_fresh_bit_count(before, pos as u128);
                    assert(obstacles & !crate::bitboard::VALID_FIELDS == 0) by (bit_vector)
                        requires
                            obstacles == before | (1u128 << (pos as u128)),
                            before & !crate::bitboard::VALID_FIELDS == 0,
                            (1u128 << (pos as u128)) & crate::bitboard::VALID_FIELDS > 0,
                    ;
                }
                count = count + 1;
            }
            fuel = fuel + 1;
        }
        if count != 3 {
            // The draw gave up too early; fall back to the three lowest
            // board cells, which are always real cells.
            obstacles = 7;
            proof {
                lemma_popcount_of_three_cells(128);
                assert(7u128 & !crate::bitboard::VALID_FIELDS == 0) by (bit_vector);
            }
        }
        res.obstacles = obstacles;
        proof {
            assert(res == (GameState { obstacles: res.obstacles, ..Self::spec_new() }));
        }
        res
    }
}

/// Adding a fresh bit raises the population count by one.
pub proof fn lemma_fresh_bit_count(x: u128, k: u128)
    requires
        k < 128,
        x & (1u128 << k) == 0,
    ensures
        popcount(x | (1u128 << k)) == popcount(x) + 1,
{
    assert((x | (1u128 << k)) == (x ^ (1u128 << k)) && (((x ^ (1u128 << k)) >> k) & 1 == 1) && ((
    x ^ (1u128 << k)) ^ (1u128 << k)) == x) by (bit_vector)
        requires
            k < 128,
            x & (1u128 << k) == 0,
    ;
    crate::bitops::lemma_pop_clear_bit(x ^ (1u128 << k), k);
}

} // verus!
