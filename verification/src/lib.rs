//! Engine core for a two-player Hive-like tile game on a hexagonal board:
//! bitboard position representation with incremental make/unmake, a legal
//! move generator, transposition and evaluation caches, and an iterative
//! deepening principal-variation search under a time budget.
pub mod action;
pub mod actionlist;
pub mod bitboard;
pub mod bitops;
pub mod hashing;
pub mod fieldtype;
pub mod gamerules;
pub mod gamestate;
pub mod neighbor_magic;
pub mod cache;
pub mod evaluation;
pub mod moveordering;
pub mod moves;
pub mod piece_type;
pub mod search;
pub mod timecontrol;
pub mod timer;
pub mod textcodec;

use crate::action::Action;
use crate::actionlist::ActionList;
use crate::gamestate::{Color, GameState};
use crate::piece_type::PieceType;
use vstd::prelude::*;

verus! {

/// What a game client must answer: state updates, the side it was given,
/// and, on request, the move it plays.
pub trait ClientListener {
    /// Called whenever the server sends a fresh position.
    fn on_update_state(&mut self, state: &GameState) {
    }

    /// Called once with the side this client plays.
    fn on_welcome_message(&mut self, color: Color) {
    }

    /// Called when the server asks for a move; the position is current.
    fn on_move_request(&mut self, state: &GameState) -> Action;
}

/// Whether no placement of the bee is among these actions.
pub fn has_no_beesetmove(al: &ActionList) -> (r: bool)
    ensures
        r == (forall|i: int|
            0 <= i < al@.len() ==> !((#[trigger] al@[i]) matches Action::SetMove(
                PieceType::BEE,
                _,
            ))),
{
    let n = al.size();
    let mut i: usize = 0;
    while i < n
        invariant
            0 <= i <= n == al@.len(),
            forall|j: int|
                0 <= j < i ==> !((#[trigger] al@[j]) matches Action::SetMove(PieceType::BEE, _)),
        decreases n - i,
    {
        if let Action::SetMove(PieceType::BEE, _) = al.get(i) {
            return false;
        }
        i = i + 1;
    }
    true
}

} // verus!

