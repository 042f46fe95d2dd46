//! The static position evaluation: an integer score from RED's point of
//! view, built from the breathing room and mobility of each bee, the
//! placement squares each side commands, and a tempo bonus for the mover.
use crate::bitboard::{get_neighbours, spec_neighbours};
use crate::bitops::{count_ones, popcount};
use crate::gamerules::{are_connected_in_swarm, spec_connected_in_swarm};
use crate::gamestate::{Color, GameState};
use crate::neighbor_magic::{get_accessible_neighbors, spec_accessible};
use vstd::prelude::*;

verus! {

/// The contribution of one side: twelve points per free cell around its
/// bee, four per cell its bee can step to, one per placement square it
/// commands, and twelve for having the move.
pub open spec fn spec_evaluate_color(s: GameState, color: Color) -> int {
    let occupied = s.spec_occupied();
    let bee = s.bee.spec_get(color);
    let free_bee_fields = popcount(spec_neighbours(bee) & !occupied & !s.obstacles);
    let bee_moves = popcount(spec_accessible(occupied, s.obstacles, bee));
    let our_set = popcount(s.spec_valid_set_destinations(color));
    let tempo: int = if s.color_to_move == color {
        12
    } else {
        0
    };
    12 * free_bee_fields + 4 * bee_moves + our_set + tempo
}

/// The score of a position from RED's point of view.
pub open spec fn spec_evaluate(s: GameState) -> int {
    spec_evaluate_color(s, Color::RED) - spec_evaluate_color(s, Color::BLUE)
}

/// The contribution of one side to the evaluation.
fn evaluate_color(game_state: &GameState, color: Color) -> (r: u32)
    ensures
        r == spec_evaluate_color(*game_state, color),
        r <= 4096,
{
    let occupied = game_state.occupied();
    let bee = game_state.bee.get(color);
    let free_bee_fields = count_ones(get_neighbours(bee) & !occupied & !game_state.obstacles);
    let bee_moves = count_ones(
        get_accessible_neighbors(occupied, game_state.obstacles, bee),
    );
    let our_set = count_ones(game_state.valid_set_destinations(color));
    let tempo: u32 = if game_state.color_to_move == color {
        12
    } else {
        0
    };
    12 * free_bee_fields + 4 * bee_moves + our_set + tempo
}

/// Scores a position from RED's point of view.
pub fn evaluate(game_state: &GameState) -> (r: i16)
    ensures
        r == spec_evaluate(*game_state),
        -4096 <= r <= 4096,
{
    let red = evaluate_color(game_state, Color::RED);
    let blue = evaluate_color(game_state, Color::BLUE);
    red as i16 - blue as i16
}

/// Whether lifting the piece on `from` keeps the rest of the hive in one
/// connected group.
pub fn can_be_removed(from: u128, occupied: u128) -> (r: bool)
    ensures
        r == spec_connected_in_swarm(occupied ^ from, spec_neighbours(from) & (occupied ^ from)),
{
    let remaining = occupied ^ from;
    let neighbours = get_neighbours(from) & remaining;
    are_connected_in_swarm(remaining, neighbours)
}

} // verus!
