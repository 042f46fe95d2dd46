//! Applying and reverting actions.  `make_action` mutates the position in
//! place; `unmake_action` is its exact inverse, so that the search can walk
//! the game tree without cloning positions.  Both carry full functional
//! contracts over `spec_make` and `spec_unmake`, and the inverse law is
//! proved below as `lemma_make_unmake`.
use crate::action::Action;
use crate::bitboard::bit;
use crate::gamestate::{Color, GameState, Pair};
use crate::hashing::{
    color_key_ord, key_of, piece_key_ord, ply6_key_ord, spec_key, stack_key_ord,
};
use crate::piece_type::PieceType;
use vstd::prelude::*;

verus! {

/// The board word with only the bit of `cell` set.
pub open spec fn sb(cell: int) -> u128 {
    1u128 << (cell as u128)
}

/// The topmost stack layer holding any piece at `cell`, or -1.
pub open spec fn spec_top_layer(s: GameState, cell: int) -> int {
    if bit(s.stack3.red, cell) || bit(s.stack3.blue, cell) {
        3
    } else if bit(s.stack2.red, cell) || bit(s.stack2.blue, cell) {
        2
    } else if bit(s.stack1.red, cell) || bit(s.stack1.blue, cell) {
        1
    } else if bit(s.stack0.red, cell) || bit(s.stack0.blue, cell) {
        0
    } else {
        -1
    }
}

/// Whether a stack stands at `cell`.
pub open spec fn spec_on_stack(s: GameState, cell: int) -> bool {
    bit(s.stack0.red, cell) || bit(s.stack0.blue, cell)
}

/// The piece key for kind `pt`, side `c`, cell `cell`.
pub open spec fn pkey(pt: PieceType, c: Color, cell: int) -> u64 {
    spec_key(piece_key_ord(pt.spec_index() as int, c.spec_index() as int, cell))
}

/// The stack key for `layer`, side `c`, cell `cell`.
pub open spec fn skey(layer: int, c: Color, cell: int) -> u64 {
    spec_key(stack_key_ord(layer, c.spec_index() as int, cell))
}

/// The piece key for kind `pt`, side `c`, cell `cell`.
fn pkey_exec(pt: PieceType, c: Color, cell: u8) -> (r: u64)
    requires
        cell < 128,
    ensures
        r == pkey(pt, c, cell as int),
{
    let ord: u64 = ((pt.index() * 2 + c.index()) * 128) as u64 + cell as u64;
    key_of(ord)
}

/// The stack key for `layer`, side `c`, cell `cell`.
fn skey_exec(layer: usize, c: Color, cell: u8) -> (r: u64)
    requires
        layer < 4,
        cell < 128,
    ensures
        r == skey(layer as int, c, cell as int),
{
    let ord: u64 = 1280 + ((layer * 2 + c.index()) * 128) as u64 + cell as u64;
    key_of(ord)
}

impl GameState {
    /// The board change of placing a piece of kind `pt` on `to`.
    #[verifier::opaque]
    pub open spec fn spec_place(self, pt: PieceType, to: int) -> GameState {
        let c = self.color_to_move;
        let s1 = self.spec_with_pieces(
            pt,
            self.spec_pieces(pt).spec_set(c, self.spec_pieces(pt).spec_get(c) ^ sb(to)),
        );
        let s2 = GameState {
            occupied: s1.occupied.spec_set(c, s1.occupied.spec_get(c) ^ sb(to)),
            ..s1
        };
        let s3 = GameState { hash: s2.hash ^ pkey(pt, c, to), ..s2 };
        GameState {
            undeployed: s3.undeployed.spec_set(
                c,
                s3.undeployed.spec_get(c).spec_set(
                    pt,
                    (s3.undeployed.spec_get(c).spec_get(pt) - 1) as u8,
                ),
            ),
            ..s3
        }
    }

    /// The board change of taking a placed piece of kind `pt` off `to`.
    #[verifier::opaque]
    pub open spec fn spec_unplace(self, pt: PieceType, to: int) -> GameState {
        let c = self.color_to_move;
        let s1 = self.spec_with_pieces(
            pt,
            self.spec_pieces(pt).spec_set(c, self.spec_pieces(pt).spec_get(c) ^ sb(to)),
        );
        let s2 = GameState {
            occupied: s1.occupied.spec_set(c, s1.occupied.spec_get(c) ^ sb(to)),
            ..s1
        };
        let s3 = GameState { hash: s2.hash ^ pkey(pt, c, to), ..s2 };
        GameState {
            undeployed: s3.undeployed.spec_set(
                c,
                s3.undeployed.spec_get(c).spec_set(
                    pt,
                    (s3.undeployed.spec_get(c).spec_get(pt) + 1) as u8,
                ),
            ),
            ..s3
        }
    }

    /// The board change of sliding a non-climbing piece from `from` to
    /// `to`: both cells toggle in the piece board, the occupancy board and
    /// the hash.
    #[verifier::opaque]
    pub open spec fn spec_slide(self, pt: PieceType, from: int, to: int) -> GameState {
        let c = self.color_to_move;
        let s1 = self.spec_with_pieces(
            pt,
            self.spec_pieces(pt).spec_set(
                c,
                self.spec_pieces(pt).spec_get(c) ^ sb(from) ^ sb(to),
            ),
        );
        let s2 = GameState {
            occupied: s1.occupied.spec_set(c, s1.occupied.spec_get(c) ^ sb(from) ^ sb(to)),
            ..s1
        };
        GameState { hash: s2.hash ^ pkey(pt, c, from) ^ pkey(pt, c, to), ..s2 }
    }

    /// The board change of lifting the mover's beetle off `from`: the top
    /// stack layer is popped, or the base beetle is cleared, and the
    /// occupancy flips to the side of the piece laid bare.
    #[verifier::opaque]
    pub open spec fn spec_beetle_lift(self, from: int) -> GameState {
        let c = self.color_to_move;
        let o = c.spec_swap();
        if spec_on_stack(self, from) {
            let k = spec_top_layer(self, from);
            let below_ours = if k == 0 {
                bit(self.spec_pieces_from_color(c), from)
            } else {
                bit(self.spec_stack(k - 1).spec_get(c), from)
            };
            let s1 = self.spec_with_stack(
                k,
                self.spec_stack(k).spec_set(c, self.spec_stack(k).spec_get(c) ^ sb(from)),
            );
            let s2 = GameState { hash: s1.hash ^ skey(k, c, from), ..s1 };
            if below_ours {
                s2
            } else {
                GameState {
                    occupied: Pair {
                        red: s2.occupied.red ^ sb(from),
                        blue: s2.occupied.blue ^ sb(from),
                    },
                    ..s2
                }
            }
        } else {
            let s1 = GameState {
                beetle: self.beetle.spec_set(c, self.beetle.spec_get(c) ^ sb(from)),
                ..self
            };
            let s2 = GameState {
                occupied: s1.occupied.spec_set(c, s1.occupied.spec_get(c) ^ sb(from)),
                ..s1
            };
            GameState { hash: s2.hash ^ pkey(PieceType::BEETLE, c, from), ..s2 }
        }
    }

    /// The board change of dropping the mover's beetle onto `to`: onto an
    /// occupied cell it climbs, claiming the occupancy and filling the
    /// first free stack layer; onto a free cell it lands as a base piece.
    #[verifier::opaque]
    pub open spec fn spec_beetle_drop(self, to: int) -> GameState {
        let c = self.color_to_move;
        let o = c.spec_swap();
        if bit(self.occupied.red | self.occupied.blue, to) {
            let s1 = GameState {
                occupied: self.occupied.spec_set(o, self.occupied.spec_get(o) & !sb(to)).spec_set(
                    c,
                    self.occupied.spec_set(o, self.occupied.spec_get(o) & !sb(to)).spec_get(c) | sb(
                        to,
                    ),
                ),
                ..self
            };
            let j = spec_top_layer(s1, to) + 1;
            if j < 4 {
                let s2 = s1.spec_with_stack(
                    j,
                    s1.spec_stack(j).spec_set(c, s1.spec_stack(j).spec_get(c) ^ sb(to)),
                );
                GameState { hash: s2.hash ^ skey(j, c, to), ..s2 }
            } else {
                s1
            }
        } else {
            let s1 = GameState {
                beetle: self.beetle.spec_set(c, self.beetle.spec_get(c) ^ sb(to)),
                ..self
            };
            let s2 = GameState {
                occupied: s1.occupied.spec_set(c, s1.occupied.spec_get(c) ^ sb(to)),
                ..s1
            };
            GameState { hash: s2.hash ^ pkey(PieceType::BEETLE, c, to), ..s2 }
        }
    }

    /// The board change of an action, before the move bookkeeping.
    #[verifier::opaque]
    pub open spec fn spec_apply_board(self, action: Action) -> GameState {
        match action {
            Action::SkipMove => self,
            Action::SetMove(pt, to) => self.spec_place(pt, to as int),
            Action::DragMove(pt, from, to) => {
                if pt != PieceType::BEETLE {
                    self.spec_slide(pt, from as int, to as int)
                } else {
                    self.spec_beetle_lift(from as int).spec_beetle_drop(to as int)
                }
            },
        }
    }

    /// The move bookkeeping: the late-game key toggles when the threshold
    /// is crossed, the ply advances, the turn passes.
    #[verifier::opaque]
    pub open spec fn spec_finish(self) -> GameState {
        let h1 = if self.ply == 5 {
            self.hash ^ spec_key(ply6_key_ord())
        } else {
            self.hash
        };
        GameState {
            ply: (self.ply + 1) as u8,
            color_to_move: self.color_to_move.spec_swap(),
            hash: h1 ^ spec_key(color_key_ord()),
            ..self
        }
    }

    /// What `make_action` does to the position.
    #[verifier::opaque]
    pub open spec fn spec_make(self, action: Action) -> GameState {
        self.spec_apply_board(action).spec_finish()
    }

    /// The reverse bookkeeping: the turn passes back, the ply retreats,
    /// the late-game key toggles back when the threshold is recrossed.
    #[verifier::opaque]
    pub open spec fn spec_unfinish(self) -> GameState {
        let h1 = self.hash ^ spec_key(color_key_ord());
        let h2 = if self.ply - 1 == 5 {
            h1 ^ spec_key(ply6_key_ord())
        } else {
            h1
        };
        GameState {
            ply: (self.ply - 1) as u8,
            color_to_move: self.color_to_move.spec_swap(),
            hash: h2,
            ..self
        }
    }

    /// What `unmake_action` does to the position.
    #[verifier::opaque]
    pub open spec fn spec_unmake(self, action: Action) -> GameState {
        let s = self.spec_unfinish();
        match action {
            Action::SkipMove => s,
            Action::SetMove(pt, to) => s.spec_unplace(pt, to as int),
            Action::DragMove(pt, from, to) => {
                if pt != PieceType::BEETLE {
                    s.spec_slide(pt, to as int, from as int)
                } else {
                    s.spec_beetle_lift(to as int).spec_beetle_drop(from as int)
                }
            },
        }
    }

    /// What `make_action` needs: cells on the board, supply for a
    /// placement, and room in the ply counter.
    pub open spec fn spec_can_make(self, action: Action) -> bool {
        &&& self.ply < 255
        &&& match action {
            Action::SkipMove => true,
            Action::SetMove(pt, to) => to < 128 && self.undeployed.spec_get(
                self.color_to_move,
            ).spec_get(pt) > 0,
            Action::DragMove(pt, from, to) => from < 128 && to < 128,
        }
    }

    /// What `unmake_action` needs: a move to take back, cells on the
    /// board, and room in the supply counter for a returned piece.
    pub open spec fn spec_can_unmake(self, action: Action) -> bool {
        &&& self.ply >= 1
        &&& match action {
            Action::SkipMove => true,
            Action::SetMove(pt, to) => to < 128 && self.undeployed.spec_get(
                self.color_to_move.spec_swap(),
            ).spec_get(pt) < 255,
            Action::DragMove(pt, from, to) => from < 128 && to < 128,
        }
    }

    /// Lifts the mover's beetle off `from`.
    fn beetle_lift(&mut self, from: u8)
        requires
            from < 128,
        ensures
            *final(self) == old(self).spec_beetle_lift(from as int),
            final(self).ply == old(self).ply,
            final(self).color_to_move == old(self).color_to_move,
            final(self).undeployed == old(self).undeployed,
            final(self).obstacles == old(self).obstacles,
    {
        let c = self.color_to_move;
        let o = c.swap();
        let fb: u128 = 1u128 << (from as u128);
        proof {
            reveal(GameState::spec_beetle_lift);
            crate::bitops::lemma_single_bit_mask(from as u128);
        }
        if self.stack0.red & fb > 0 || self.stack0.blue & fb > 0 {
            let k: usize = if self.stack3.red & fb > 0 || self.stack3.blue & fb > 0 {
                3
            } else if self.stack2.red & fb > 0 || self.stack2.blue & fb > 0 {
                2
            } else if self.stack1.red & fb > 0 || self.stack1.blue & fb > 0 {
                1
            } else {
                0
            };
            let below_ours: bool = if k == 0 {
                self.pieces_from_color(c) & fb > 0
            } else {
                self.stack(k - 1).get(c) & fb > 0
            };
            let layer = self.stack(k);
            self.set_stack(k, layer.set(c, layer.get(c) ^ fb));
            let hk = skey_exec(k, c, from);
            self.hash = self.hash ^ hk;
            if !below_ours {
                self.occupied = Pair {
                    red: self.occupied.red ^ fb,
                    blue: self.occupied.blue ^ fb,
                };
            }
        } else {
            self.beetle = self.beetle.set(c, self.beetle.get(c) ^ fb);
            self.occupied = self.occupied.set(c, self.occupied.get(c) ^ fb);
            let hk = pkey_exec(PieceType::BEETLE, c, from);
            self.hash = self.hash ^ hk;
        }
    }

    /// Drops the mover's beetle onto `to`.
    fn beetle_drop(&mut self, to: u8)
        requires
            to < 128,
        ensures
            *final(self) == old(self).spec_beetle_drop(to as int),
            final(self).ply == old(self).ply,
            final(self).color_to_move == old(self).color_to_move,
            final(self).undeployed == old(self).undeployed,
            final(self).obstacles == old(self).obstacles,
    {
        let c = self.color_to_move;
        let o = c.swap();
        let tb: u128 = 1u128 << (to as u128);
        proof {
            reveal(GameState::spec_beetle_drop);
            crate::bitops::lemma_single_bit_mask(to as u128);
            crate::bitops::lemma_or_bit_decompose(to as u128);
        }
        if (self.occupied.red | self.occupied.blue) & tb > 0 {
            self.occupied = self.occupied.set(o, self.occupied.get(o) & !tb);
            self.occupied = self.occupied.set(c, self.occupied.get(c) | tb);
            let j: usize = if !(self.stack3.red & tb > 0 || self.stack3.blue & tb > 0) {
                if !(self.stack2.red & tb > 0 || self.stack2.blue & tb > 0) {
                    if !(self.stack1.red & tb > 0 || self.stack1.blue & tb > 0) {
                        if !(self.stack0.red & tb > 0 || self.stack0.blue & tb > 0) {
                            0
                        } else {
                            1
                        }
                    } else {
                        2
                    }
                } else {
                    3
                }
            } else {
                4
            };
            if j < 4 {
                let layer = self.stack(j);
                self.set_stack(j, layer.set(c, layer.get(c) ^ tb));
                let hk = skey_exec(j, c, to);
                self.hash = self.hash ^ hk;
            }
        } else {
            self.beetle = self.beetle.set(c, self.beetle.get(c) ^ tb);
            self.occupied = self.occupied.set(c, self.occupied.get(c) ^ tb);
            let hk = pkey_exec(PieceType::BEETLE, c, to);
            self.hash = self.hash ^ hk;
        }
    }

    /// Applies `action` to this position: the board changes in place, the
    /// ply advances, the turn passes, and the hash follows incrementally.
    pub fn make_action(&mut self, action: Action)
        requires
            old(self).spec_can_make(action),
        ensures
            *final(self) == old(self).spec_make(action),
            final(self).ply == old(self).ply + 1,
            final(self).color_to_move == old(self).color_to_move.spec_swap(),
            match action {
                Action::SetMove(pt, to) => final(self).undeployed == old(
                    self,
                ).undeployed.spec_set(
                    old(self).color_to_move,
                    old(self).undeployed.spec_get(old(self).color_to_move).spec_set(
                        pt,
                        (old(self).undeployed.spec_get(old(self).color_to_move).spec_get(pt)
                            - 1) as u8,
                    ),
                ),
                _ => final(self).undeployed == old(self).undeployed,
            },
    {
        proof {
            reveal(GameState::spec_make);
            reveal(GameState::spec_apply_board);
            reveal(GameState::spec_finish);
            reveal(GameState::spec_place);
            reveal(GameState::spec_slide);
        }
        let c = self.color_to_move;
        match action {
            Action::SkipMove => {},
            Action::SetMove(pt, to) => {
                let tb: u128 = 1u128 << (to as u128);
                let pcs = self.pieces(pt);
                self.set_pieces(pt, pcs.set(c, pcs.get(c) ^ tb));
                self.occupied = self.occupied.set(c, self.occupied.get(c) ^ tb);
                let hk = pkey_exec(pt, c, to);
                self.hash = self.hash ^ hk;
                let counts = self.undeployed.get(c);
                self.undeployed = self.undeployed.set(
                    c,
                    counts.set(pt, counts.get(pt) - 1),
                );
            },
            Action::DragMove(pt, from, to) => {
                if !matches!(pt, PieceType::BEETLE) {
                    let fb: u128 = 1u128 << (from as u128);
                    let tb: u128 = 1u128 << (to as u128);
                    let pcs = self.pieces(pt);
                    self.set_pieces(pt, pcs.set(c, pcs.get(c) ^ fb ^ tb));
                    self.occupied = self.occupied.set(c, self.occupied.get(c) ^ fb ^ tb);
                    let hk1 = pkey_exec(pt, c, from);
                    let hk2 = pkey_exec(pt, c, to);
                    self.hash = self.hash ^ hk1 ^ hk2;
                } else {
                    self.beetle_lift(from);
                    self.beetle_drop(to);
                }
            },
        }
        if self.ply == 5 {
            let k6 = key_of(2305);
            self.hash = self.hash ^ k6;
        }
        self.ply = self.ply + 1;
        self.color_to_move = self.color_to_move.swap();
        let ck = key_of(2304);
        self.hash = self.hash ^ ck;
    }

    /// Takes `action` back: restores the position that `make_action` was
    /// called on, bit for bit, hash included.
    pub fn unmake_action(&mut self, action: Action)
        requires
            old(self).spec_can_unmake(action),
        ensures
            *final(self) == old(self).spec_unmake(action),
    {
        proof {
            reveal(GameState::spec_unmake);
            reveal(GameState::spec_unfinish);
            reveal(GameState::spec_unplace);
            reveal(GameState::spec_slide);
        }
        let ck = key_of(2304);
        self.hash = self.hash ^ ck;
        self.ply = self.ply - 1;
        if self.ply == 5 {
            let k6 = key_of(2305);
            self.hash = self.hash ^ k6;
        }
        self.color_to_move = self.color_to_move.swap();
        let c = self.color_to_move;
        match action {
            Action::SkipMove => {},
            Action::SetMove(pt, to) => {
                let tb: u128 = 1u128 << (to as u128);
                let pcs = self.pieces(pt);
                self.set_pieces(pt, pcs.set(c, pcs.get(c) ^ tb));
                self.occupied = self.occupied.set(c, self.occupied.get(c) ^ tb);
                let hk = pkey_exec(pt, c, to);
                self.hash = self.hash ^ hk;
                let counts = self.undeployed.get(c);
                self.undeployed = self.undeployed.set(
                    c,
                    counts.set(pt, counts.get(pt) + 1),
                );
            },
            Action::DragMove(pt, from, to) => {
                if !matches!(pt, PieceType::BEETLE) {
                    let fb: u128 = 1u128 << (from as u128);
                    let tb: u128 = 1u128 << (to as u128);
                    let pcs = self.pieces(pt);
                    self.set_pieces(pt, pcs.set(c, pcs.get(c) ^ tb ^ fb));
                    self.occupied = self.occupied.set(c, self.occupied.get(c) ^ tb ^ fb);
                    let hk1 = pkey_exec(pt, c, to);
                    let hk2 = pkey_exec(pt, c, from);
                    self.hash = self.hash ^ hk1 ^ hk2;
                } else {
                    self.beetle_lift(to);
                    self.beetle_drop(from);
                }
            },
        }
    }
}

/// Single-bit updates of a board word and how they compose.
#[verifier::rlimit(100)]
proof fn lemma_word_ops(x: u128, t: u128)
    by (bit_vector)
    requires
        t < 128,
    ensures
        ((x >> t) & 1 == 1) ==> (x | (1u128 << t)) == x,
        ((x >> t) & 1 != 1) ==> (x & !(1u128 << t)) == x,
        (x ^ (1u128 << t)) ^ (1u128 << t) == x,
        ((x >> t) & 1 != 1) ==> ((x | (1u128 << t)) ^ (1u128 << t)) == x,
        ((x >> t) & 1 == 1) ==> ((x & !(1u128 << t)) ^ (1u128 << t)) == x,
        ((x >> t) & 1 == 1) ==> ((x ^ (1u128 << t)) | (1u128 << t)) == x,
        ((x >> t) & 1 != 1) ==> ((x ^ (1u128 << t)) & !(1u128 << t)) == x,
        ((x >> t) & 1 == 1) ==> ((x ^ (1u128 << t)) >> t) & 1 != 1,
        ((x >> t) & 1 != 1) ==> ((x ^ (1u128 << t)) >> t) & 1 == 1,
        ((x | (1u128 << t)) >> t) & 1 == 1,
        ((x & !(1u128 << t)) >> t) & 1 != 1,
{
}

/// Single-bit updates at one cell leave every other cell alone.
proof fn lemma_bit_other(x: u128, f: u128, t: u128)
    by (bit_vector)
    requires
        f < 128,
        t < 128,
        f != t,
    ensures
        ((x ^ (1u128 << f)) >> t) & 1 == (x >> t) & 1,
        ((x | (1u128 << f)) >> t) & 1 == (x >> t) & 1,
        ((x & !(1u128 << f)) >> t) & 1 == (x >> t) & 1,
{
}

/// Toggling the same key twice restores a hash.
proof fn lemma_cancel64(x: u64, k: u64)
    by (bit_vector)
    ensures
        (x ^ k) ^ k == x,
{
}

/// Whether the stack layers at `cell` are contiguous from the bottom and
/// hold at most one side's piece per layer.
pub open spec fn spec_stack_sane(s: GameState, cell: int) -> bool {
    &&& (bit(s.stack1.red, cell) || bit(s.stack1.blue, cell)) ==> (bit(s.stack0.red, cell) || bit(
        s.stack0.blue,
        cell,
    ))
    &&& (bit(s.stack2.red, cell) || bit(s.stack2.blue, cell)) ==> (bit(s.stack1.red, cell) || bit(
        s.stack1.blue,
        cell,
    ))
    &&& (bit(s.stack3.red, cell) || bit(s.stack3.blue, cell)) ==> (bit(s.stack2.red, cell) || bit(
        s.stack2.blue,
        cell,
    ))
    &&& !(bit(s.stack0.red, cell) && bit(s.stack0.blue, cell))
    &&& !(bit(s.stack1.red, cell) && bit(s.stack1.blue, cell))
    &&& !(bit(s.stack2.red, cell) && bit(s.stack2.blue, cell))
    &&& !(bit(s.stack3.red, cell) && bit(s.stack3.blue, cell))
}

/// What taking a beetle off `from` needs so that dropping it back there
/// restores the position: the mover's piece shows on top there, the stack
/// under it is sound, and the occupancy bits agree with it.
pub open spec fn spec_lift_ok(s: GameState, from: int) -> bool {
    let c = s.color_to_move;
    let o = c.spec_swap();
    &&& bit(s.occupied.spec_get(c), from)
    &&& !bit(s.occupied.spec_get(o), from)
    &&& if spec_on_stack(s, from) {
        &&& spec_stack_sane(s, from)
        &&& bit(s.spec_stack(spec_top_layer(s, from)).spec_get(c), from)
        &&& (spec_top_layer(s, from) == 0 ==> (bit(s.spec_pieces_from_color(Color::RED), from)
            || bit(s.spec_pieces_from_color(Color::BLUE), from)))
        &&& !(bit(s.spec_pieces_from_color(Color::RED), from) && bit(
            s.spec_pieces_from_color(Color::BLUE),
            from,
        ))
    } else {
        &&& bit(s.beetle.spec_get(c), from)
        &&& !bit(s.stack1.red, from) && !bit(s.stack1.blue, from)
        &&& !bit(s.stack2.red, from) && !bit(s.stack2.blue, from)
        &&& !bit(s.stack3.red, from) && !bit(s.stack3.blue, from)
    }
}

/// What dropping a beetle onto `to` needs so that lifting it off again
/// restores the position: on an occupied cell, a sound stack with room
/// and occupancy bits matching the showing piece; on a free cell, no
/// stale stack entries.
pub open spec fn spec_drop_ok(s: GameState, to: int) -> bool {
    let c = s.color_to_move;
    let o = c.spec_swap();
    if bit(s.occupied.red | s.occupied.blue, to) {
        &&& spec_stack_sane(s, to)
        &&& !bit(s.stack3.red, to) && !bit(s.stack3.blue, to)
        &&& !(bit(s.occupied.red, to) && bit(s.occupied.blue, to))
        &&& s.spec_cell_owner(to) is Some
        &&& bit(s.occupied.spec_get(s.spec_cell_owner(to)->Some_0), to)
        &&& !(bit(s.spec_pieces_from_color(Color::RED), to) && bit(
            s.spec_pieces_from_color(Color::BLUE),
            to,
        ))
        &&& (!spec_on_stack(s, to) ==> (bit(s.spec_pieces_from_color(Color::RED), to) || bit(
            s.spec_pieces_from_color(Color::BLUE),
            to,
        )))
    } else {
        &&& !bit(s.stack0.red, to) && !bit(s.stack0.blue, to)
        &&& !bit(s.stack1.red, to) && !bit(s.stack1.blue, to)
        &&& !bit(s.stack2.red, to) && !bit(s.stack2.blue, to)
        &&& !bit(s.stack3.red, to) && !bit(s.stack3.blue, to)
    }
}

/// What an action needs so that `unmake_action` after `make_action`
/// restores the position exactly.
pub open spec fn spec_can_invert(s: GameState, action: Action) -> bool {
    &&& s.spec_can_make(action)
    &&& match action {
        Action::SkipMove => true,
        Action::SetMove(pt, to) => true,
        Action::DragMove(pt, from, to) => {
            &&& (pt == PieceType::BEETLE ==> from != to && spec_lift_ok(s, from as int)
                && spec_drop_ok(s, to as int))
        },
    }
}

/// Lifting a just-dropped beetle restores the position.
#[verifier::rlimit(100)]
proof fn lemma_drop_lift(t: GameState, to: int)
    requires
        0 <= to < 128,
        spec_drop_ok(t, to),
    ensures
        t.spec_beetle_drop(to).spec_beetle_lift(to) == t,
{
    reveal(GameState::spec_beetle_lift);
    reveal(GameState::spec_beetle_drop);
    let c = t.color_to_move;
    let o = c.spec_swap();
    let tb = to as u128;
    lemma_word_ops(t.occupied.red, tb);
    lemma_word_ops(t.occupied.blue, tb);
    lemma_word_ops(t.beetle.red, tb);
    lemma_word_ops(t.beetle.blue, tb);
    lemma_word_ops(t.stack0.red, tb);
    lemma_word_ops(t.stack0.blue, tb);
    lemma_word_ops(t.stack1.red, tb);
    lemma_word_ops(t.stack1.blue, tb);
    lemma_word_ops(t.stack2.red, tb);
    lemma_word_ops(t.stack2.blue, tb);
    lemma_word_ops(t.stack3.red, tb);
    lemma_word_ops(t.stack3.blue, tb);
    let d = t.spec_beetle_drop(to);
    lemma_word_ops(d.occupied.red, tb);
    lemma_word_ops(d.occupied.blue, tb);
    lemma_cancel64(t.hash, pkey(PieceType::BEETLE, c, to));
    if bit(t.occupied.red | t.occupied.blue, to) {
        let j = spec_top_layer(t, to) + 1;
        lemma_cancel64(t.hash, skey(j, c, to));
        lemma_word_ops(d.spec_stack(j).spec_get(c), tb);
        assert(d.spec_beetle_lift(to) == t);
    } else {
        assert(d.spec_beetle_lift(to) == t);
    }
}

/// Dropping a just-lifted beetle back restores the position.
#[verifier::rlimit(100)]
proof fn lemma_lift_drop(s: GameState, from: int)
    requires
        0 <= from < 128,
        spec_lift_ok(s, from),
    ensures
        s.spec_beetle_lift(from).spec_beetle_drop(from) == s,
{
    reveal(GameState::spec_beetle_lift);
    reveal(GameState::spec_beetle_drop);
    let c = s.color_to_move;
    let o = c.spec_swap();
    let fb = from as u128;
    let l = s.spec_beetle_lift(from);
    let d = l.spec_beetle_drop(from);
    crate::bitops::lemma_or_bit_decompose(fb);
    lemma_word_ops(s.occupied.red, fb);
    lemma_word_ops(s.occupied.blue, fb);
    lemma_word_ops(s.occupied.red ^ (1u128 << fb), fb);
    lemma_word_ops(s.occupied.blue ^ (1u128 << fb), fb);
    if spec_on_stack(s, from) {
        let k = spec_top_layer(s, from);
        assert(bit(l.occupied.red | l.occupied.blue, from)) by {
            assert(bit(l.occupied.red, from) || bit(l.occupied.blue, from));
        }
        assert(l.beetle == s.beetle);
        lemma_word_ops(s.stack0.spec_get(c), fb);
        lemma_word_ops(s.stack1.spec_get(c), fb);
        lemma_word_ops(s.stack2.spec_get(c), fb);
        lemma_word_ops(s.stack3.spec_get(c), fb);
        assert(spec_top_layer(l, from) == k - 1) by {
            assert(bit(s.spec_stack(k).spec_get(c), from));
            assert(!bit(s.spec_stack(k).spec_get(o), from));
        }
        assert(d.stack0 == s.stack0 && d.stack1 == s.stack1 && d.stack2 == s.stack2 && d.stack3
            == s.stack3);
        assert(d.hash == s.hash) by {
            lemma_cancel64(s.hash, skey(k, c, from));
        }
        assert(d.occupied == s.occupied) by {
            assert(bit(s.occupied.spec_get(c), from));
            assert(!bit(s.occupied.spec_get(o), from));
        }
        assert(d == s);
    } else {
        lemma_word_ops(s.beetle.spec_get(c), fb);
        assert(!bit(l.occupied.red, from) && !bit(l.occupied.blue, from));
        assert(!bit(l.occupied.red | l.occupied.blue, from));
        assert(d.beetle == s.beetle);
        assert(d.occupied == s.occupied);
        assert(d.hash == s.hash) by {
            lemma_cancel64(s.hash, pkey(PieceType::BEETLE, c, from));
        }
        assert(d == s);
    }
}

/// A beetle lift only changes cells at `from`: every test that the drop
/// makes at another cell `to` reads the same bits before and after.
proof fn lemma_lift_leaves_other(s: GameState, from: int, to: int)
    requires
        0 <= from < 128,
        0 <= to < 128,
        from != to,
    ensures
        bit(s.spec_beetle_lift(from).occupied.red, to) == bit(s.occupied.red, to),
        bit(s.spec_beetle_lift(from).occupied.blue, to) == bit(s.occupied.blue, to),
        bit(s.spec_beetle_lift(from).beetle.red, to) == bit(s.beetle.red, to),
        bit(s.spec_beetle_lift(from).beetle.blue, to) == bit(s.beetle.blue, to),
        bit(s.spec_beetle_lift(from).stack0.red, to) == bit(s.stack0.red, to),
        bit(s.spec_beetle_lift(from).stack0.blue, to) == bit(s.stack0.blue, to),
        bit(s.spec_beetle_lift(from).stack1.red, to) == bit(s.stack1.red, to),
        bit(s.spec_beetle_lift(from).stack1.blue, to) == bit(s.stack1.blue, to),
        bit(s.spec_beetle_lift(from).stack2.red, to) == bit(s.stack2.red, to),
        bit(s.spec_beetle_lift(from).stack2.blue, to) == bit(s.stack2.blue, to),
        bit(s.spec_beetle_lift(from).stack3.red, to) == bit(s.stack3.red, to),
        bit(s.spec_beetle_lift(from).stack3.blue, to) == bit(s.stack3.blue, to),
        bit(s.spec_beetle_lift(from).spec_pieces_from_color(Color::RED), to) == bit(
            s.spec_pieces_from_color(Color::RED),
            to,
        ),
        bit(s.spec_beetle_lift(from).spec_pieces_from_color(Color::BLUE), to) == bit(
            s.spec_pieces_from_color(Color::BLUE),
            to,
        ),
        s.spec_beetle_lift(from).color_to_move == s.color_to_move,
{
    reveal(GameState::spec_beetle_lift);
    crate::bitops::lemma_or_bit_decompose(to as u128);
    lemma_bit_other(s.occupied.red, from as u128, to as u128);
    lemma_bit_other(s.occupied.blue, from as u128, to as u128);
    lemma_bit_other(s.beetle.red, from as u128, to as u128);
    lemma_bit_other(s.beetle.blue, from as u128, to as u128);
    lemma_bit_other(s.stack0.red, from as u128, to as u128);
    lemma_bit_other(s.stack0.blue, from as u128, to as u128);
    lemma_bit_other(s.stack1.red, from as u128, to as u128);
    lemma_bit_other(s.stack1.blue, from as u128, to as u128);
    lemma_bit_other(s.stack2.red, from as u128, to as u128);
    lemma_bit_other(s.stack2.blue, from as u128, to as u128);
    lemma_bit_other(s.stack3.red, from as u128, to as u128);
    lemma_bit_other(s.stack3.blue, from as u128, to as u128);
}

/// The board change of an action never touches the ply or the turn.
proof fn lemma_board_keeps_meta(s: GameState, action: Action)
    ensures
        s.spec_apply_board(action).ply == s.ply,
        s.spec_apply_board(action).color_to_move == s.color_to_move,
{
    reveal(GameState::spec_apply_board);
    reveal(GameState::spec_place);
    reveal(GameState::spec_slide);
    reveal(GameState::spec_beetle_lift);
    reveal(GameState::spec_beetle_drop);
}

/// Undoing the move bookkeeping restores the board-change result.
#[verifier::rlimit(100)]
proof fn lemma_finish_unfinish(b: GameState)
    requires
        b.ply < 255,
    ensures
        b.spec_finish().spec_unfinish() == b,
{
    reveal(GameState::spec_finish);
    reveal(GameState::spec_unfinish);
    lemma_cancel64(b.hash, spec_key(ply6_key_ord()));
    lemma_cancel64(b.hash ^ spec_key(ply6_key_ord()), spec_key(color_key_ord()));
    lemma_cancel64(b.hash, spec_key(color_key_ord()));
}

/// Taking back a placement restores the position.
#[verifier::rlimit(100)]
#[verifier::spinoff_prover]
proof fn lemma_mu_set(s: GameState, pt: PieceType, to: u8)
    requires
        s.spec_can_make(Action::SetMove(pt, to)),
    ensures
        s.spec_place(pt, to as int).spec_unplace(pt, to as int) == s,
{
    reveal(GameState::spec_place);
    reveal(GameState::spec_unplace);
    let c = s.color_to_move;
    let tb = to as u128;
    let r = s.spec_place(pt, to as int).spec_unplace(pt, to as int);
    lemma_word_ops(s.spec_pieces(pt).spec_get(c), tb);
    lemma_word_ops(s.occupied.spec_get(c), tb);
    assert(r.hash == s.hash) by {
        lemma_cancel64(s.hash, pkey(pt, c, to as int));
    }
    assert(r == s);
}

/// Taking back a plain slide restores the position.
#[verifier::rlimit(100)]
#[verifier::spinoff_prover]
proof fn lemma_mu_slide(s: GameState, pt: PieceType, from: u8, to: u8)
    requires
        from < 128,
        to < 128,
    ensures
        s.spec_slide(pt, from as int, to as int).spec_slide(pt, to as int, from as int) == s,
{
    reveal(GameState::spec_slide);
    let c = s.color_to_move;
    let fb = from as u128;
    let tb = to as u128;
    let r = s.spec_slide(pt, from as int, to as int).spec_slide(pt, to as int, from as int);
    assert(r.spec_pieces(pt) == s.spec_pieces(pt) && r.occupied == s.occupied) by {
        lemma_slide_words(s.spec_pieces(pt).spec_get(c), fb, tb);
        lemma_slide_words(s.occupied.spec_get(c), fb, tb);
    }
    assert(r.hash == s.hash) by {
        lemma_cancel64(s.hash ^ pkey(pt, c, from as int), pkey(pt, c, to as int));
        lemma_cancel64(s.hash, pkey(pt, c, from as int));
    }
    assert(r == s);
}

/// Toggling two cells and then the same two cells in reverse order
/// restores a board word.
proof fn lemma_slide_words(x: u128, f: u128, t: u128)
    by (bit_vector)
    requires
        f < 128,
        t < 128,
    ensures
        (((x ^ (1u128 << f) ^ (1u128 << t)) ^ (1u128 << t)) ^ (1u128 << f)) == x,
{
}

/// Taking back a beetle move restores the position.
#[verifier::rlimit(100)]
#[verifier::spinoff_prover]
proof fn lemma_mu_beetle(s: GameState, from: u8, to: u8)
    requires
        from < 128,
        to < 128,
        from != to,
        spec_lift_ok(s, from as int),
        spec_drop_ok(s, to as int),
    ensures
        s.spec_beetle_lift(from as int).spec_beetle_drop(to as int).spec_beetle_lift(
            to as int,
        ).spec_beetle_drop(from as int) == s,
{
    let b1 = s.spec_beetle_lift(from as int);
    assert(spec_drop_ok(b1, to as int)) by {
        lemma_lift_leaves_other(s, from as int, to as int);
        crate::bitops::lemma_or_bit_decompose(to as u128);
        assert(b1.spec_cell_owner(to as int) == s.spec_cell_owner(to as int));
        assert(b1.color_to_move == s.color_to_move);
    }
    lemma_drop_lift(b1, to as int);
    lemma_lift_drop(s, from as int);
}

/// Taking an action back restores the position it was made from: making
/// and then unmaking any invertible action is the identity, every field
/// and the hash included.
#[verifier::rlimit(100)]
#[verifier::spinoff_prover]
pub proof fn lemma_make_unmake(s: GameState, action: Action)
    requires
        spec_can_invert(s, action),
    ensures
        s.spec_make(action).spec_unmake(action) == s,
{
    reveal(GameState::spec_make);
    reveal(GameState::spec_unmake);
    reveal(GameState::spec_apply_board);
    let b = s.spec_apply_board(action);
    lemma_board_keeps_meta(s, action);
    lemma_finish_unfinish(b);
    assert(s.spec_make(action).spec_unfinish() == b);
    match action {
        Action::SkipMove => {},
        Action::SetMove(pt, to) => {
            lemma_mu_set(s, pt, to);
        },
        Action::DragMove(pt, from, to) => {
            if pt != PieceType::BEETLE {
                lemma_mu_slide(s, pt, from, to);
            } else {
                lemma_mu_beetle(s, from, to);
            }
        },
    }
}

impl GameState {
    /// Whether making `action` here can be exactly undone; the search and
    /// the node counter test this before applying a move, so that every
    /// application is matched by a faithful reversal.
    pub fn can_invert(&self, action: Action) -> (r: bool)
        ensures
            r == spec_can_invert(*self, action),
    {
        if self.ply >= 255 {
            return false;
        }
        match action {
            Action::SkipMove => true,
            Action::SetMove(pt, to) => to < 128 && self.undeployed.get(self.color_to_move).get(pt)
                > 0,
            Action::DragMove(pt, from, to) => {
                if !(from < 128 && to < 128) {
                    false
                } else if !matches!(pt, PieceType::BEETLE) {
                    true
                } else {
                    from != to && self.lift_ok(from) && self.drop_ok(to)
                }
            },
        }
    }

    /// Whether a beetle lift off `from` can be exactly undone.
    fn lift_ok(&self, from: u8) -> (r: bool)
        requires
            from < 128,
        ensures
            r == spec_lift_ok(*self, from as int),
    {
        proof {
            crate::bitops::lemma_single_bit_mask(from as u128);
            crate::bitops::lemma_or_bit_decompose(from as u128);
        }
        let c = self.color_to_move;
        let o = c.swap();
        let fb: u128 = 1u128 << (from as u128);
        if !(self.occupied.get(c) & fb > 0 && self.occupied.get(o) & fb == 0) {
            return false;
        }
        if self.stack0.red & fb > 0 || self.stack0.blue & fb > 0 {
            let sane = self.stack_sane(from);
            let top: usize = if self.stack3.red & fb > 0 || self.stack3.blue & fb > 0 {
                3
            } else if self.stack2.red & fb > 0 || self.stack2.blue & fb > 0 {
                2
            } else if self.stack1.red & fb > 0 || self.stack1.blue & fb > 0 {
                1
            } else {
                0
            };
            let reds = self.pieces_from_color(Color::RED);
            let blues = self.pieces_from_color(Color::BLUE);
            sane && self.stack(top).get(c) & fb > 0 && (top != 0 || (reds & fb > 0 || blues & fb
                > 0)) && !(reds & fb > 0 && blues & fb > 0)
        } else {
            self.beetle.get(c) & fb > 0 && self.stack1.both() & fb == 0 && self.stack2.both() & fb
                == 0 && self.stack3.both() & fb == 0
        }
    }

    /// Whether a beetle drop onto `to` can be exactly undone.
    fn drop_ok(&self, to: u8) -> (r: bool)
        requires
            to < 128,
        ensures
            r == spec_drop_ok(*self, to as int),
    {
        proof {
            crate::bitops::lemma_single_bit_mask(to as u128);
            crate::bitops::lemma_or_bit_decompose(to as u128);
        }
        let tb: u128 = 1u128 << (to as u128);
        let reds = self.pieces_from_color(Color::RED);
        let blues = self.pieces_from_color(Color::BLUE);
        if (self.occupied.red | self.occupied.blue) & tb > 0 {
            let owner: Option<Color> = if self.stack0.red & tb > 0 || self.stack0.blue & tb > 0 {
                Some(self.stack_color(to as usize))
            } else if reds & tb > 0 {
                Some(Color::RED)
            } else if blues & tb > 0 {
                Some(Color::BLUE)
            } else {
                None
            };
            let owner_shown: bool = match owner {
                Some(cown) => self.occupied.get(cown) & tb > 0,
                None => false,
            };
            self.stack_sane(to) && self.stack3.both() & tb == 0 && !(self.occupied.red & tb > 0
                && self.occupied.blue & tb > 0) && owner_shown && !(reds & tb > 0 && blues & tb
                > 0) && (self.stack0.both() & tb > 0 || (reds & tb > 0 || blues & tb > 0))
        } else {
            self.stack0.both() & tb == 0 && self.stack1.both() & tb == 0 && self.stack2.both() & tb
                == 0 && self.stack3.both() & tb == 0
        }
    }

    /// Whether the stack layers at `cell` are contiguous and hold one
    /// side's piece per layer at most.
    fn stack_sane(&self, cell: u8) -> (r: bool)
        requires
            cell < 128,
        ensures
            r == spec_stack_sane(*self, cell as int),
    {
        proof {
            crate::bitops::lemma_single_bit_mask(cell as u128);
            crate::bitops::lemma_or_bit_decompose(cell as u128);
        }
        let b: u128 = 1u128 << (cell as u128);
        (self.stack1.both() & b == 0 || self.stack0.both() & b > 0) && (self.stack2.both() & b == 0
            || self.stack1.both() & b > 0) && (self.stack3.both() & b == 0 || self.stack2.both()
            & b > 0) && !(self.stack0.red & b > 0 && self.stack0.blue & b > 0) && !(self.stack1.red
            & b > 0 && self.stack1.blue & b > 0) && !(self.stack2.red & b > 0 && self.stack2.blue
            & b > 0) && !(self.stack3.red & b > 0 && self.stack3.blue & b > 0)
    }
}

/// A slide never creates or destroys a piece: when the mover's piece of
/// kind `pt` stands on `from` and `to` is clear of that kind, the board
/// of that kind after the move holds exactly as many pieces as before,
/// with `from` emptied and `to` filled.
#[verifier::rlimit(100)]
#[verifier::spinoff_prover]
pub proof fn lemma_slide_conserves_pieces(s: GameState, pt: PieceType, from: u8, to: u8)
    requires
        pt != PieceType::BEETLE,
        from < 128,
        to < 128,
        from != to,
        bit(s.spec_pieces(pt).spec_get(s.color_to_move), from as int),
        !bit(s.spec_pieces(pt).spec_get(s.color_to_move), to as int),
    ensures
        crate::bitops::popcount(
            s.spec_make(Action::DragMove(pt, from, to)).spec_pieces(pt).spec_get(s.color_to_move),
        ) == crate::bitops::popcount(s.spec_pieces(pt).spec_get(s.color_to_move)),
        !bit(
            s.spec_make(Action::DragMove(pt, from, to)).spec_pieces(pt).spec_get(s.color_to_move),
            from as int,
        ),
        bit(
            s.spec_make(Action::DragMove(pt, from, to)).spec_pieces(pt).spec_get(s.color_to_move),
            to as int,
        ),
        s.spec_make(Action::DragMove(pt, from, to)).undeployed == s.undeployed,
        s.spec_make(Action::DragMove(pt, from, to)).obstacles == s.obstacles,
{
    reveal(GameState::spec_make);
    reveal(GameState::spec_apply_board);
    reveal(GameState::spec_finish);
    reveal(GameState::spec_slide);
    let x = s.spec_pieces(pt).spec_get(s.color_to_move);
    let lifted = x ^ sb(from as int);
    let landed = lifted ^ sb(to as int);
    crate::bitops::lemma_pop_clear_bit(x, from as u128);
    assert(bit(lifted, to as int) == bit(x, to as int) && bit(lifted, from as int) != bit(
        x,
        from as int,
    ) && landed == lifted | (1u128 << (to as u128)) && lifted & (1u128 << (to as u128)) == 0
        && bit(landed, to as int) && bit(landed, from as int) == bit(lifted, from as int))
        by (bit_vector)
        requires
            lifted == x ^ (1u128 << (from as u128)),
            landed == lifted ^ (1u128 << (to as u128)),
            (x >> (to as u128)) & 1 != 1,
            from < 128,
            to < 128,
            from != to,
    ;
    crate::gamestate::lemma_fresh_bit_count(lifted, to as u128);
    assert(s.spec_make(Action::DragMove(pt, from, to)).spec_pieces(pt).spec_get(s.color_to_move)
        == landed);
}

} // verus!
