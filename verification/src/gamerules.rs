//! The rules of play: placement squares, per-kind movement, the one-hive
//! connectivity check, game-over detection, and the legal move generator
//! that the search consumes.
use crate::action::Action;
use crate::actionlist::ActionList;
use crate::bitboard::{
    bit, get_neighbours, shift_east, shift_noea, shift_nowe, shift_soea, shift_sowe, shift_west,
    spec_neighbours, spec_shift_east, spec_shift_noea, spec_shift_nowe, spec_shift_soea,
    spec_shift_sowe, spec_shift_west, VALID_FIELDS,
};
use crate::bitops::{count_ones, lowest_bit, popcount};
use crate::gamestate::{spec_full_supply, Color, GameState};
use crate::neighbor_magic::{get_accessible_neighbors, spec_accessible};
use crate::piece_type::PieceType;
use vstd::prelude::*;

verus! {

impl GameState {
    /// Whether the mover is in the round where the bee must be placed and
    /// has not placed it yet.
    pub open spec fn spec_must_place_bee(self) -> bool {
        self.ply / 2 == 3 && !self.spec_has_placed_bee()
    }

    /// Whether the mover is in the round where the bee must be placed and
    /// has not placed it yet.
    pub fn must_player_place_bee(&self) -> (r: bool)
        ensures
            r == self.spec_must_place_bee(),
    {
        self.ply / 2 == 3 && !self.has_player_placed_bee()
    }

    /// Whether the mover's bee is on the board.
    pub open spec fn spec_has_placed_bee(self) -> bool {
        self.bee.spec_get(self.color_to_move) != 0
    }

    /// Whether the mover's bee is on the board.
    pub fn has_player_placed_bee(&self) -> (r: bool)
        ensures
            r == self.spec_has_placed_bee(),
    {
        self.bee.get(self.color_to_move) > 0
    }

    /// Whether `index` carries a stack whose bottom layer is `color`'s.
    pub fn is_on_colored_stack(&self, index: usize, color: Color) -> (r: bool)
        requires
            index < 128,
        ensures
            r == bit(self.stack0.spec_get(color), index as int),
    {
        proof {
            crate::bitops::lemma_single_bit_mask(index as u128);
        }
        self.stack0.get(color) & (1u128 << (index as u128)) != 0
    }

    /// Whether `index` carries a stack.
    pub fn is_on_stack(&self, index: usize) -> (r: bool)
        requires
            index < 128,
        ensures
            r == crate::moves::spec_on_stack(*self, index as int),
    {
        self.is_on_colored_stack(index, Color::RED) || self.is_on_colored_stack(index, Color::BLUE)
    }

    /// Cells where `color` may place a new piece: next to its own pieces,
    /// not next to the enemy's, empty, and not blocked.
    pub open spec fn spec_valid_set_destinations(self, color: Color) -> u128 {
        spec_neighbours(self.occupied.spec_get(color)) & !(spec_neighbours(
            self.occupied.spec_get(color.spec_swap()),
        ) | self.obstacles | self.spec_occupied())
    }

    /// Cells where `color` may place a new piece.
    pub fn valid_set_destinations(&self, color: Color) -> (r: u128)
        ensures
            r == self.spec_valid_set_destinations(color),
    {
        let next_to_own = get_neighbours(self.occupied.get(color));
        let next_to_other = get_neighbours(self.occupied.get(color.swap()));
        next_to_own & !(next_to_other | self.obstacles | self.occupied())
    }
}

/// One flood step: the cells reached so far plus their occupied neighbours.
pub open spec fn spec_flood_step(occupied: u128, v: u128) -> u128 {
    v | (spec_neighbours(v) & occupied)
}

/// `n` flood steps from `v` over the occupied cells.
pub open spec fn spec_flood(occupied: u128, v: u128, n: int) -> u128
    decreases n,
{
    if n <= 0 {
        v
    } else {
        spec_flood_step(occupied, spec_flood(occupied, v, n - 1))
    }
}

/// Whether a board word has exactly one set bit.
pub open spec fn spec_single(bb: u128) -> bool {
    bb != 0 && bb & ((bb - 1) as u128) == 0
}

/// Whether the cells of `to_check` all lie in one connected group of
/// `occupied` under hex adjacency: the flood fill from the lowest cell of
/// `to_check` over `occupied` reaches all of `to_check`.  An empty or
/// single-cell `to_check` is connected by itself.
pub open spec fn spec_connected_in_swarm(occupied: u128, to_check: u128) -> bool {
    if to_check == 0 || spec_single(to_check) {
        true
    } else {
        let seed = spec_lowest(to_check);
        spec_flood(occupied, seed, 128) & to_check == to_check
    }
}

/// The lowest set bit of a board word.
pub open spec fn spec_lowest(bb: u128) -> u128 {
    bb & ((!bb + 1) as u128)
}

/// Flooding longer never reaches fewer cells.
proof fn lemma_flood_grows(occupied: u128, v: u128, m: int, n: int)
    requires
        0 <= m <= n,
    ensures
        spec_flood(occupied, v, m) & !spec_flood(occupied, v, n) == 0,
    decreases n,
{
    crate::bitops::lemma_subset_facts();
    if m < n {
        lemma_flood_grows(occupied, v, m, n - 1);
        assert(spec_flood(occupied, v, n - 1) & !spec_flood(occupied, v, n) == 0);
    }
}

/// A flood fixpoint never moves again.
proof fn lemma_flood_fix(occupied: u128, v: u128, n: int)
    requires
        n >= 0,
        spec_flood_step(occupied, v) == v,
    ensures
        spec_flood(occupied, v, n) == v,
    decreases n,
{
    if n > 0 {
        lemma_flood_fix(occupied, v, n - 1);
    }
}

/// Later flood rounds start from earlier ones.
proof fn lemma_flood_split(occupied: u128, v: u128, k: int, n: int)
    requires
        0 <= k <= n,
    ensures
        spec_flood(occupied, v, n) == spec_flood(occupied, spec_flood(occupied, v, k), n - k),
    decreases n - k,
{
    if k < n {
        lemma_flood_split(occupied, v, k, n - 1);
        assert(spec_flood(occupied, spec_flood(occupied, v, k), n - k) == spec_flood_step(
            occupied,
            spec_flood(occupied, spec_flood(occupied, v, k), n - k - 1),
        ));
    }
}

/// Whether the cells of `to_check` all lie in one connected group of
/// `occupied`; the flood fill stops as soon as the goal is covered or no
/// new cell was reached.
pub fn are_connected_in_swarm(occupied: u128, to_check: u128) -> (r: bool)
    ensures
        r == spec_connected_in_swarm(occupied, to_check),
{
    if to_check == 0 || to_check & (to_check - 1) == 0 {
        return true;
    }
    proof {
        assert(!to_check < 0xffffffffffffffffffffffffffffffffu128) by (bit_vector)
            requires
                to_check != 0,
        ;
    }
    let seed: u128 = to_check & ((!to_check) + 1);
    proof {
        crate::bitops::lemma_subset_facts();
    }
    let mut visited: u128 = seed;
    let mut i: u32 = 0;
    while i < 128
        invariant
            0 <= i <= 128,
            visited == spec_flood(occupied, seed, i as int),
            seed == spec_lowest(to_check),
            to_check != 0,
            !spec_single(to_check),
            i > 0 ==> visited & to_check != to_check,
        decreases 128 - i,
    {
        let old_visited = visited;
        visited = visited | (get_neighbours(visited) & occupied);
        if visited & to_check == to_check {
            proof {
                lemma_flood_grows(occupied, seed, i as int + 1, 128);
                crate::bitops::lemma_subset_facts();
                let here = spec_flood(occupied, seed, i as int + 1);
                let full = spec_flood(occupied, seed, 128);
                assert(full & to_check == to_check) by (bit_vector)
                    requires
                        here & to_check == to_check,
                        here & !full == 0,
                ;
            }
            return true;
        }
        if visited == old_visited {
            proof {
                lemma_flood_split(occupied, seed, i as int, 128);
                lemma_flood_fix(occupied, visited, 128 - i as int);
            }
            return false;
        }
        i = i + 1;
    }
    false
}

/// One step in hex direction `d`: north-west, north-east, south-east,
/// south-west, east, west in that order.
pub open spec fn spec_shift_dir(d: int, bb: u128) -> u128 {
    if d == 0 {
        spec_shift_nowe(bb)
    } else if d == 1 {
        spec_shift_noea(bb)
    } else if d == 2 {
        spec_shift_soea(bb)
    } else if d == 3 {
        spec_shift_sowe(bb)
    } else if d == 4 {
        spec_shift_east(bb)
    } else {
        spec_shift_west(bb)
    }
}

/// Where a jump along direction `d` lands: the runner keeps stepping
/// while it sits on an occupied cell, within `fuel` steps.
pub open spec fn spec_hop(d: int, occupied: u128, runner: u128, fuel: int) -> u128
    decreases fuel,
{
    if fuel <= 0 || runner & occupied == 0 {
        runner
    } else {
        spec_hop(d, occupied, spec_shift_dir(d, runner), fuel - 1)
    }
}

/// Cells a grasshopper on `from` can jump to: in each direction the
/// first cell past the occupied run starting at the neighbour, never a
/// blocked cell and never a cell adjacent to the start, so a direction
/// whose neighbour is already free contributes nothing.
pub open spec fn spec_grasshopper_destinations(occupied: u128, obstacles: u128, from: u128) -> u128 {
    (spec_hop(0, occupied, spec_shift_nowe(from), 128) | spec_hop(
        1,
        occupied,
        spec_shift_noea(from),
        128,
    ) | spec_hop(2, occupied, spec_shift_soea(from), 128) | spec_hop(
        3,
        occupied,
        spec_shift_sowe(from),
        128,
    ) | spec_hop(4, occupied, spec_shift_east(from), 128) | spec_hop(
        5,
        occupied,
        spec_shift_west(from),
        128,
    )) & !(obstacles | spec_neighbours(from))
}

/// Runs the jump of one direction.
fn hop(d: u8, occupied: u128, start: u128) -> (r: u128)
    requires
        d < 6,
    ensures
        r == spec_hop(d as int, occupied, start, 128),
{
    let mut runner = start;
    let mut fuel: u32 = 128;
    while runner & occupied > 0 && fuel > 0
        invariant
            spec_hop(d as int, occupied, runner, fuel as int) == spec_hop(
                d as int,
                occupied,
                start,
                128,
            ),
        decreases fuel,
    {
        runner = if d == 0 {
            shift_nowe(runner)
        } else if d == 1 {
            shift_noea(runner)
        } else if d == 2 {
            shift_soea(runner)
        } else if d == 3 {
            shift_sowe(runner)
        } else if d == 4 {
            shift_east(runner)
        } else {
            shift_west(runner)
        };
        fuel = fuel - 1;
    }
    runner
}

/// Cells a grasshopper on `from` can jump to.
pub fn get_grasshopper_destinations(occupied: u128, obstacles: u128, from: u128) -> (r: u128)
    ensures
        r == spec_grasshopper_destinations(occupied, obstacles, from),
        r & obstacles == 0,
        r & spec_neighbours(from) == 0,
{
    let destinations = hop(0, occupied, shift_nowe(from)) | hop(1, occupied, shift_noea(from))
        | hop(2, occupied, shift_soea(from)) | hop(3, occupied, shift_sowe(from)) | hop(
        4,
        occupied,
        shift_east(from),
    ) | hop(5, occupied, shift_west(from));
    let r = destinations & !(obstacles | get_neighbours(from));
    proof {
        assert(r & obstacles == 0 && r & spec_neighbours(from) == 0) by (bit_vector)
            requires
                r == destinations & !(obstacles | spec_neighbours(from)),
        ;
    }
    r
}

/// One round of the ant walk: take the lowest waiting cell, reach its
/// accessible neighbours, and queue the fresh ones.
pub open spec fn spec_ant_walk(
    occupied: u128,
    obstacles: u128,
    candidates: u128,
    destinations: u128,
    fuel: int,
) -> u128
    decreases fuel,
{
    if candidates == 0 || fuel <= 0 {
        destinations
    } else {
        let c = spec_lowest(candidates);
        let more = spec_accessible(occupied, obstacles, c) & !destinations;
        spec_ant_walk(occupied, obstacles, (candidates & !c) | more, destinations | more, fuel - 1)
    }
}

/// Cells an ant on `from` can slide to: the closure of the single-step
/// accessible-neighbour relation, the ant's own cell excluded.
pub open spec fn spec_ant_destinations(occupied: u128, obstacles: u128, from: u128) -> u128 {
    spec_ant_walk(
        occupied,
        obstacles,
        spec_accessible(occupied, obstacles, from),
        spec_accessible(occupied, obstacles, from),
        16384,
    ) & !from
}

/// Cells an ant on `current_field` can slide to; every destination is
/// free and unblocked.
pub fn get_ant_destinations(occupied: u128, obstacles: u128, current_field: u128) -> (r: u128)
    ensures
        r == spec_ant_destinations(occupied, obstacles, current_field),
        r & occupied == 0,
        r & obstacles == 0,
        r & current_field == 0,
{
    let acc0 = get_accessible_neighbors(occupied, obstacles, current_field);
    let mut candidates = acc0;
    let mut destinations = acc0;
    let mut fuel: u32 = 16384;
    while candidates > 0 && fuel > 0
        invariant
            spec_ant_walk(occupied, obstacles, candidates, destinations, fuel as int)
                == spec_ant_walk(occupied, obstacles, acc0, acc0, 16384),
            destinations & occupied == 0,
            destinations & obstacles == 0,
        decreases fuel,
    {
        proof {
            assert(!candidates < 0xffffffffffffffffffffffffffffffffu128) by (bit_vector)
                requires
                    candidates != 0,
            ;
        }
        let current_bit: u128 = candidates & ((!candidates) + 1);
        let more = get_accessible_neighbors(occupied, obstacles, current_bit) & !destinations;
        proof {
            crate::bitops::lemma_or_and_zero();
        }
        candidates = (candidates & !current_bit) | more;
        destinations = destinations | more;
        fuel = fuel - 1;
    }
    let r = destinations & !current_field;
    proof {
        assert(r & occupied == 0 && r & obstacles == 0 && r & current_field == 0) by (bit_vector)
            requires
                r == destinations & !current_field,
                destinations & occupied == 0,
                destinations & obstacles == 0,
        ;
    }
    r
}

/// A spider walk of `to_go` more steps from `field`, never revisiting
/// the walked path: at the final step every reachable cell joins the
/// collected destinations, otherwise the walk branches into each fresh
/// accessible neighbour, lowest cell first.
pub open spec fn spec_spider_walk(
    destinations: u128,
    occupied: u128,
    obstacles: u128,
    field: u128,
    path: u128,
    to_go: int,
) -> u128
    decreases to_go, 130int,
{
    let cands = spec_accessible(occupied, obstacles, field) & !path;
    if to_go <= 1 {
        destinations | cands
    } else {
        spec_spider_fold(destinations, occupied, obstacles, cands, path, to_go, 129)
    }
}

/// Branches the spider walk into each cell of `rest`, lowest first.
pub open spec fn spec_spider_fold(
    destinations: u128,
    occupied: u128,
    obstacles: u128,
    rest: u128,
    path: u128,
    to_go: int,
    fuel: int,
) -> u128
    decreases to_go, fuel,
{
    if rest == 0 || fuel <= 0 || to_go <= 1 {
        destinations
    } else {
        let c = spec_lowest(rest);
        spec_spider_fold(
            spec_spider_walk(destinations, occupied, obstacles, c, path ^ c, to_go - 1),
            occupied,
            obstacles,
            rest & !c,
            path,
            to_go,
            fuel - 1,
        )
    }
}

/// Cells a spider on `from` reaches in exactly three fresh steps.
pub open spec fn spec_spider_destinations(occupied: u128, obstacles: u128, from: u128) -> u128 {
    spec_spider_walk(0, occupied, obstacles, from, from, 3)
}

/// Collects the cells a spider on `current_field` reaches in exactly
/// `to_go` accessible steps that never revisit the current path.
pub fn append_spider_destinations(
    destinations: &mut u128,
    occupied: u128,
    obstacles: u128,
    current_field: u128,
    current_path: u128,
    to_go: u8,
) -> (nothing: ())
    requires
        to_go >= 1,
    ensures
        *final(destinations) == spec_spider_walk(
            *old(destinations),
            occupied,
            obstacles,
            current_field,
            current_path,
            to_go as int,
        ),
        *old(destinations) & !*final(destinations) == 0,
        (*final(destinations) & !*old(destinations)) & (occupied | obstacles) == 0,
    decreases to_go,
{
    let acc = get_accessible_neighbors(occupied, obstacles, current_field);
    let candidates = acc & !current_path;
    if to_go == 1 {
        let updated = *destinations | candidates;
        proof {
            assert(*destinations & !updated == 0 && (updated & !*destinations) & (occupied
                | obstacles) == 0) by (bit_vector)
                requires
                    updated == *destinations | candidates,
                    candidates == acc & !current_path,
                    acc & occupied == 0,
                    acc & obstacles == 0,
            ;
        }
        *destinations = updated;
        return ;
    }
    let ghost start = *old(destinations);
    let ghost answer = spec_spider_walk(
        start,
        occupied,
        obstacles,
        current_field,
        current_path,
        to_go as int,
    );
    proof {
        assert(start & !start == 0 && (start & !start) & (occupied | obstacles) == 0)
            by (bit_vector);
    }
    let mut rest = candidates;
    let mut fuel: u32 = 129;
    while rest > 0 && fuel > 0
        invariant
            2 <= to_go,
            candidates == spec_accessible(occupied, obstacles, current_field) & !current_path,
            spec_spider_fold(
                *destinations,
                occupied,
                obstacles,
                rest,
                current_path,
                to_go as int,
                fuel as int,
            ) == answer,
            start & !*destinations == 0,
            (*destinations & !start) & (occupied | obstacles) == 0,
        decreases fuel,
    {
        let ghost before = *destinations;
        proof {
            assert(!rest < 0xffffffffffffffffffffffffffffffffu128) by (bit_vector)
                requires
                    rest != 0,
            ;
        }
        let current_bit: u128 = rest & ((!rest) + 1);
        rest = rest & !current_bit;
        append_spider_destinations(
            destinations,
            occupied,
            obstacles,
            current_bit,
            current_path ^ current_bit,
            to_go - 1,
        );
        proof {
            let after = *destinations;
            assert(start & !after == 0 && (after & !start) & (occupied | obstacles) == 0)
                by (bit_vector)
                requires
                    start & !before == 0,
                    (before & !start) & (occupied | obstacles) == 0,
                    before & !after == 0,
                    (after & !before) & (occupied | obstacles) == 0,
            ;
        }
        fuel = fuel - 1;
    }
    proof {
        assert(*destinations == answer);
    }
}

/// Cells a beetle on `field` can crawl or climb to: each neighbour is
/// reachable when one of the cells straddling the step, or the target
/// itself, is occupied; blocked cells are excluded.
pub open spec fn spec_beetle_accessible(occupied: u128, obstacles: u128, field: u128) -> u128 {
    let nowe = spec_shift_nowe(field);
    let noea = spec_shift_noea(field);
    let sowe = spec_shift_sowe(field);
    let soea = spec_shift_soea(field);
    let east = spec_shift_east(field);
    let west = spec_shift_west(field);
    ((if (west | noea | nowe) & occupied != 0 {
        nowe
    } else {
        0
    }) | (if (nowe | sowe | west) & occupied != 0 {
        west
    } else {
        0
    }) | (if (nowe | east | noea) & occupied != 0 {
        noea
    } else {
        0
    }) | (if (noea | soea | east) & occupied != 0 {
        east
    } else {
        0
    }) | (if (soea | west | sowe) & occupied != 0 {
        sowe
    } else {
        0
    }) | (if (east | sowe | soea) & occupied != 0 {
        soea
    } else {
        0
    })) & !obstacles
}

/// Cells a beetle on `field` can crawl or climb to.
pub fn get_beetle_accessible_neighbours(occupied: u128, obstacles: u128, field: u128) -> (r: u128)
    ensures
        r == spec_beetle_accessible(occupied, obstacles, field),
        r & obstacles == 0,
{
    let nowe = shift_nowe(field);
    let noea = shift_noea(field);
    let sowe = shift_sowe(field);
    let soea = shift_soea(field);
    let east = shift_east(field);
    let west = shift_west(field);
    let mut ret: u128 = 0;
    if (west | noea | nowe) & occupied > 0 {
        ret = ret | nowe;
    }
    if (nowe | sowe | west) & occupied > 0 {
        ret = ret | west;
    }
    if (nowe | east | noea) & occupied > 0 {
        ret = ret | noea;
    }
    if (noea | soea | east) & occupied > 0 {
        ret = ret | east;
    }
    if (soea | west | sowe) & occupied > 0 {
        ret = ret | sowe;
    }
    if (east | sowe | soea) & occupied > 0 {
        ret = ret | soea;
    }
    let r = ret & !obstacles;
    proof {
        crate::bitops::lemma_or128_zero();
        assert(r & obstacles == 0) by (bit_vector)
            requires
                r == ret & !obstacles,
        ;
    }
    r
}

/// The winner of a finished game: a side whose bee is gone loses; with
/// both bees alive, the side whose bee has more breathing room wins, and
/// equal room is a draw.
pub open spec fn spec_result(s: GameState) -> Option<Color> {
    if s.bee.red == 0 {
        Some(Color::BLUE)
    } else if s.bee.blue == 0 {
        Some(Color::RED)
    } else {
        let red_room = popcount(
            spec_neighbours(s.bee.red) & !s.spec_occupied() & !s.obstacles,
        );
        let blue_room = popcount(
            spec_neighbours(s.bee.blue) & !s.spec_occupied() & !s.obstacles,
        );
        if red_room > blue_room {
            Some(Color::RED)
        } else if blue_room > red_room {
            Some(Color::BLUE)
        } else {
            None
        }
    }
}

/// The winner of a finished game, or `None` for a draw.
pub fn get_result(game_state: &GameState) -> (r: Option<Color>)
    ensures
        r == spec_result(*game_state),
{
    if game_state.bee.red == 0 {
        Some(Color::BLUE)
    } else if game_state.bee.blue == 0 {
        Some(Color::RED)
    } else {
        let red_room = count_ones(
            get_neighbours(game_state.bee.red) & !game_state.occupied() & !game_state.obstacles,
        );
        let blue_room = count_ones(
            get_neighbours(game_state.bee.blue) & !game_state.occupied() & !game_state.obstacles,
        );
        if red_room > blue_room {
            Some(Color::RED)
        } else if blue_room > red_room {
            Some(Color::BLUE)
        } else {
            None
        }
    }
}

/// Whether the game is over: the ply cap is reached, or, at the start of
/// a round, a placed bee is fully enclosed, or a side has failed to place
/// its bee within the opening plies.
pub open spec fn spec_game_finished(s: GameState) -> bool {
    if s.ply >= 60 {
        true
    } else if s.ply % 2 == 1 {
        false
    } else {
        let all = s.occupied.blue | s.occupied.red | s.obstacles;
        let red_out = if s.bee.red != 0 {
            spec_neighbours(s.bee.red) & all == spec_neighbours(s.bee.red)
        } else {
            s.ply >= 7
        };
        let blue_out = if s.bee.blue != 0 {
            spec_neighbours(s.bee.blue) & all == spec_neighbours(s.bee.blue)
        } else {
            s.ply >= 8
        };
        red_out || blue_out
    }
}

/// Whether the game is over.
pub fn is_game_finished(game_state: &GameState) -> (r: bool)
    ensures
        r == spec_game_finished(*game_state),
{
    if game_state.ply >= 60 {
        return true;
    }
    if game_state.ply % 2 == 1 {
        return false;
    }
    let all = game_state.occupied.blue | game_state.occupied.red | game_state.obstacles;
    if game_state.bee.red != 0 {
        let bee_neighbours = get_neighbours(game_state.bee.red);
        if bee_neighbours & all == bee_neighbours {
            return true;
        }
    } else if game_state.ply >= 7 {
        return true;
    }
    if game_state.bee.blue != 0 {
        let bee_neighbours = get_neighbours(game_state.bee.blue);
        if bee_neighbours & all == bee_neighbours {
            return true;
        }
    } else if game_state.ply >= 8 {
        return true;
    }
    false
}

/// Whether an action is a drag between two board cells.
pub open spec fn spec_drag_shaped(a: Action) -> bool {
    match a {
        Action::DragMove(pt, f, t) => f < 128 && t < 128,
        _ => false,
    }
}

/// The placements the mover can afford on `to`, kinds in generation
/// order.
pub open spec fn spec_sets_at(s: GameState, to: int) -> Seq<Action> {
    let u = s.undeployed.spec_get(s.color_to_move);
    (if u.bee > 0 {
        seq![Action::SetMove(PieceType::BEE, to as u8)]
    } else {
        Seq::empty()
    }) + (if u.beetle > 0 {
        seq![Action::SetMove(PieceType::BEETLE, to as u8)]
    } else {
        Seq::empty()
    }) + (if u.ant > 0 {
        seq![Action::SetMove(PieceType::ANT, to as u8)]
    } else {
        Seq::empty()
    }) + (if u.grasshopper > 0 {
        seq![Action::SetMove(PieceType::GRASSHOPPER, to as u8)]
    } else {
        Seq::empty()
    }) + (if u.spider > 0 {
        seq![Action::SetMove(PieceType::SPIDER, to as u8)]
    } else {
        Seq::empty()
    })
}

/// The placements on every cell of `mask` below `n`, lowest cell first.
pub open spec fn spec_set_moves(s: GameState, mask: u128, n: int) -> Seq<Action>
    decreases n,
{
    if n <= 0 {
        Seq::empty()
    } else {
        spec_set_moves(s, mask, n - 1) + (if bit(mask, n - 1) {
            spec_sets_at(s, n - 1)
        } else {
            Seq::empty()
        })
    }
}

/// The forced bee placements on every cell of `mask` below `n`.
pub open spec fn spec_bee_sets(s: GameState, mask: u128, n: int) -> Seq<Action>
    decreases n,
{
    if n <= 0 {
        Seq::empty()
    } else {
        spec_bee_sets(s, mask, n - 1) + (if bit(mask, n - 1) && s.undeployed.spec_get(
            s.color_to_move,
        ).bee > 0 {
            seq![Action::SetMove(PieceType::BEE, (n - 1) as u8)]
        } else {
            Seq::empty()
        })
    }
}

/// The drags of one piece from `from` to every cell of `dests` below
/// `n`, lowest target first.
pub open spec fn spec_drags_of(pt: PieceType, from: int, dests: u128, n: int) -> Seq<Action>
    decreases n,
{
    if n <= 0 {
        Seq::empty()
    } else {
        spec_drags_of(pt, from, dests, n - 1) + (if bit(dests, n - 1) {
            seq![Action::DragMove(pt, from as u8, (n - 1) as u8)]
        } else {
            Seq::empty()
        })
    }
}

/// The kind of the mover's piece on `from`, in the dispatch order of the
/// drag generator.
pub open spec fn spec_own_kind(s: GameState, from: int) -> Option<PieceType> {
    let c = s.color_to_move;
    if bit(s.bee.spec_get(c), from) {
        Some(PieceType::BEE)
    } else if bit(s.beetle.spec_get(c), from) {
        Some(PieceType::BEETLE)
    } else if bit(s.ant.spec_get(c), from) {
        Some(PieceType::ANT)
    } else if bit(s.spider.spec_get(c), from) {
        Some(PieceType::SPIDER)
    } else if bit(s.grasshopper.spec_get(c), from) {
        Some(PieceType::GRASSHOPPER)
    } else {
        None
    }
}

/// Every drag of the mover's piece on `from`: a stacked beetle steps to
/// any unblocked neighbour; a ground piece moves only when lifting it
/// keeps the hive connected, to the cells its kind reaches.
pub open spec fn spec_drag_actions_at(s: GameState, from: int) -> Seq<Action> {
    let from_bit = (1u128 << (from as u128));
    let c = s.color_to_move;
    if bit(s.stack0.red | s.stack0.blue, from) {
        spec_drags_of(PieceType::BEETLE, from, spec_neighbours(from_bit) & !s.obstacles, 128)
    } else {
        let occupied = (s.occupied.red | s.occupied.blue) ^ from_bit;
        let neighbours = spec_neighbours(from_bit) & occupied;
        if !spec_connected_in_swarm(occupied, neighbours) {
            Seq::empty()
        } else {
            match spec_own_kind(s, from) {
                Some(PieceType::BEE) => spec_drags_of(
                    PieceType::BEE,
                    from,
                    spec_accessible(occupied, s.obstacles, from_bit),
                    128,
                ),
                Some(PieceType::BEETLE) => spec_drags_of(
                    PieceType::BEETLE,
                    from,
                    spec_beetle_accessible(occupied, s.obstacles, from_bit),
                    128,
                ),
                Some(PieceType::ANT) => spec_drags_of(
                    PieceType::ANT,
                    from,
                    spec_ant_destinations(occupied, s.obstacles, from_bit),
                    128,
                ),
                Some(PieceType::SPIDER) => spec_drags_of(
                    PieceType::SPIDER,
                    from,
                    spec_spider_destinations(occupied, s.obstacles, from_bit),
                    128,
                ),
                Some(PieceType::GRASSHOPPER) => spec_drags_of(
                    PieceType::GRASSHOPPER,
                    from,
                    spec_grasshopper_destinations(occupied, s.obstacles, from_bit),
                    128,
                ),
                None => Seq::empty(),
            }
        }
    }
}

/// The drag moves of every piece the mover shows, lowest cell first.
pub open spec fn spec_drag_moves(s: GameState, n: int) -> Seq<Action>
    decreases n,
{
    if n <= 0 {
        Seq::empty()
    } else {
        spec_drag_moves(s, n - 1) + (if bit(s.occupied.spec_get(s.color_to_move), n - 1) {
            spec_drag_actions_at(s, n - 1)
        } else {
            Seq::empty()
        })
    }
}

/// Every legal action of the side to move, in generation order: the
/// opening placements in the first two plies, the forced bee placement
/// in the fourth round, then affordable placements on valid squares
/// plus, once the bee stands, the drag moves; the skip move alone when
/// nothing else exists.
pub open spec fn spec_legal_moves(s: GameState) -> Seq<Action> {
    if s.ply == 0 {
        spec_set_moves(s, VALID_FIELDS & !s.obstacles, 128)
    } else if s.ply == 1 {
        spec_set_moves(s, spec_neighbours(s.occupied.red) & !s.obstacles, 128)
    } else if s.spec_must_place_bee() {
        let base = spec_bee_sets(s, s.spec_valid_set_destinations(s.color_to_move), 128);
        if base.len() == 0 {
            seq![Action::SkipMove]
        } else {
            base
        }
    } else {
        let sets = spec_set_moves(s, s.spec_valid_set_destinations(s.color_to_move), 128);
        let all = if s.spec_has_placed_bee() {
            sets + spec_drag_moves(s, 128)
        } else {
            sets
        };
        if all.len() == 0 {
            seq![Action::SkipMove]
        } else {
            all
        }
    }
}

/// Appends one drag move per cell of `dests`, lowest target first.
fn push_drag_moves(actionlist: &mut ActionList, pt: PieceType, from: u32, dests: u128)
    requires
        from < 128,
    ensures
        final(actionlist)@ == old(actionlist)@ + spec_drags_of(pt, from as int, dests, 128),
        forall|i: int|
            0 <= i < old(actionlist)@.len() ==> final(actionlist)@[i] == old(actionlist)@[i],
        forall|i: int|
            old(actionlist)@.len() <= i < final(actionlist)@.len() ==> spec_drag_shaped(
                #[trigger] final(actionlist)@[i],
            ),
{
    let mut i: u32 = 0;
    proof {
        assert(actionlist@ =~= old(actionlist)@ + spec_drags_of(pt, from as int, dests, 0));
    }
    while i < 128
        invariant
            from < 128,
            0 <= i <= 128,
            actionlist@ == old(actionlist)@ + spec_drags_of(pt, from as int, dests, i as int),
            forall|j: int|
                old(actionlist)@.len() <= j < actionlist@.len() ==> spec_drag_shaped(
                    #[trigger] actionlist@[j],
                ),
        decreases 128 - i,
    {
        if crate::bitops::test_bit(dests, i) {
            actionlist.push(Action::DragMove(pt, from as u8, i as u8));
        }
        proof {
            assert(actionlist@ =~= old(actionlist)@ + spec_drags_of(
                pt,
                from as int,
                dests,
                i as int + 1,
            ));
        }
        i = i + 1;
    }
}

/// Appends a placement on `to` of every piece kind still in supply.
fn push_all_set_moves(actionlist: &mut ActionList, to: u32, game_state: &GameState)
    requires
        to < 128,
        game_state.ply < 255,
    ensures
        final(actionlist)@ == old(actionlist)@ + spec_sets_at(*game_state, to as int),
        forall|i: int|
            0 <= i < old(actionlist)@.len() ==> final(actionlist)@[i] == old(actionlist)@[i],
        forall|i: int|
            old(actionlist)@.len() <= i < final(actionlist)@.len() ==> ((#[trigger] final(actionlist)@[i]) is SetMove
                && game_state.spec_can_make(final(actionlist)@[i])),
        game_state.undeployed.spec_get(game_state.color_to_move) == spec_full_supply().red
            ==> final(actionlist)@.len() == old(actionlist)@.len() + 5,
{
    let counts = game_state.undeployed.get(game_state.color_to_move);
    if counts.get(PieceType::BEE) > 0 {
        actionlist.push(Action::SetMove(PieceType::BEE, to as u8));
    }
    if counts.get(PieceType::BEETLE) > 0 {
        actionlist.push(Action::SetMove(PieceType::BEETLE, to as u8));
    }
    if counts.get(PieceType::ANT) > 0 {
        actionlist.push(Action::SetMove(PieceType::ANT, to as u8));
    }
    if counts.get(PieceType::GRASSHOPPER) > 0 {
        actionlist.push(Action::SetMove(PieceType::GRASSHOPPER, to as u8));
    }
    if counts.get(PieceType::SPIDER) > 0 {
        actionlist.push(Action::SetMove(PieceType::SPIDER, to as u8));
    }
    proof {
        assert(final(actionlist)@ =~= old(actionlist)@ + spec_sets_at(*game_state, to as int));
    }
}

/// Fills `actionlist` with every legal action for the side to move.
pub fn calculate_legal_moves(game_state: &GameState, actionlist: &mut ActionList)
    requires
        game_state.ply < 250,
    ensures
        final(actionlist)@ == spec_legal_moves(*game_state),
        game_state.ply >= 2 ==> final(actionlist)@.len() > 0,
        forall|i: int|
            0 <= i < final(actionlist)@.len() ==> game_state.spec_can_make(
                #[trigger] final(actionlist)@[i],
            ),
        (game_state.ply == 0 && game_state.undeployed == spec_full_supply()) ==> final(actionlist)@.len() == 5 * popcount(VALID_FIELDS & !game_state.obstacles),
        game_state.ply <= 1 ==> forall|i: int|
            0 <= i < final(actionlist)@.len() ==> (#[trigger] final(actionlist)@[i]) is SetMove,
        final(actionlist)@.contains(Action::SkipMove) ==> final(actionlist)@.len() == 1,
{
    actionlist.clear();
    if game_state.ply == 0 {
        let mask = VALID_FIELDS & !game_state.obstacles;
        let mut i: u32 = 0;
        while i < 128
            invariant
                game_state.ply == 0,
                0 <= i <= 128,
                mask == VALID_FIELDS & !game_state.obstacles,
                actionlist@ == spec_set_moves(*game_state, mask, i as int),
                game_state.undeployed == spec_full_supply() ==> actionlist@.len() == 5
                    * crate::bitops::pop_below(mask, i as int),
                forall|j: int|
                    0 <= j < actionlist@.len() ==> (#[trigger] actionlist@[j]) is SetMove
                        && game_state.spec_can_make(actionlist@[j]),
            decreases 128 - i,
        {
            if crate::bitops::test_bit(mask, i) {
                push_all_set_moves(actionlist, i, game_state);
            }
            proof {
                assert(actionlist@ =~= spec_set_moves(*game_state, mask, i as int + 1));
            }
            i = i + 1;
        }
        return ;
    }
    if game_state.ply == 1 {
        let mask = get_neighbours(game_state.occupied.red) & !game_state.obstacles;
        let mut i: u32 = 0;
        while i < 128
            invariant
                game_state.ply == 1,
                0 <= i <= 128,
                mask == spec_neighbours(game_state.occupied.red) & !game_state.obstacles,
                actionlist@ == spec_set_moves(*game_state, mask, i as int),
                forall|j: int|
                    0 <= j < actionlist@.len() ==> (#[trigger] actionlist@[j]) is SetMove
                        && game_state.spec_can_make(actionlist@[j]),
            decreases 128 - i,
        {
            if crate::bitops::test_bit(mask, i) {
                push_all_set_moves(actionlist, i, game_state);
            }
            proof {
                assert(actionlist@ =~= spec_set_moves(*game_state, mask, i as int + 1));
            }
            i = i + 1;
        }
        return ;
    }
    let valid_set_destinations = game_state.valid_set_destinations(game_state.color_to_move);
    if game_state.must_player_place_bee() {
        let bee_left = game_state.undeployed.get(game_state.color_to_move).get(PieceType::BEE)
            > 0;
        let mut i: u32 = 0;
        while i < 128
            invariant
                game_state.ply < 250,
                0 <= i <= 128,
                bee_left == (game_state.undeployed.spec_get(game_state.color_to_move).bee > 0),
                actionlist@ == spec_bee_sets(*game_state, valid_set_destinations, i as int),
                forall|j: int|
                    0 <= j < actionlist@.len() ==> (#[trigger] actionlist@[j]) is SetMove
                        && game_state.spec_can_make(actionlist@[j]),
            decreases 128 - i,
        {
            if crate::bitops::test_bit(valid_set_destinations, i) && bee_left {
                actionlist.push(Action::SetMove(PieceType::BEE, i as u8));
            }
            proof {
                assert(actionlist@ =~= spec_bee_sets(
                    *game_state,
                    valid_set_destinations,
                    i as int + 1,
                ));
            }
            i = i + 1;
        }
        if actionlist.size() == 0 {
            actionlist.push(Action::SkipMove);
            proof {
                assert(actionlist@ =~= seq![Action::SkipMove]);
            }
        }
        return ;
    }
    let mut i: u32 = 0;
    while i < 128
        invariant
            game_state.ply < 250,
            0 <= i <= 128,
            actionlist@ == spec_set_moves(*game_state, valid_set_destinations, i as int),
            forall|j: int|
                0 <= j < actionlist@.len() ==> !((#[trigger] actionlist@[j]) is SkipMove)
                    && game_state.spec_can_make(actionlist@[j]),
        decreases 128 - i,
    {
        if crate::bitops::test_bit(valid_set_destinations, i) {
            push_all_set_moves(actionlist, i, game_state);
        }
        proof {
            assert(actionlist@ =~= spec_set_moves(
                *game_state,
                valid_set_destinations,
                i as int + 1,
            ));
        }
        i = i + 1;
    }
    if game_state.has_player_placed_bee() {
        calculate_drag_moves(game_state, actionlist);
    }
    if actionlist.size() == 0 {
        actionlist.push(Action::SkipMove);
        proof {
            assert(actionlist@ =~= seq![Action::SkipMove]);
        }
    }
}

/// Appends every drag move of the side to move, lowest cell first.
pub fn calculate_drag_moves(game_state: &GameState, actionlist: &mut ActionList)
    requires
        game_state.ply < 250,
    ensures
        final(actionlist)@ == old(actionlist)@ + spec_drag_moves(*game_state, 128),
        old(actionlist)@.len() <= final(actionlist)@.len(),
        forall|i: int|
            0 <= i < old(actionlist)@.len() ==> final(actionlist)@[i] == old(actionlist)@[i],
        forall|i: int|
            old(actionlist)@.len() <= i < final(actionlist)@.len() ==> spec_drag_shaped(
                #[trigger] final(actionlist)@[i],
            ) && game_state.spec_can_make(final(actionlist)@[i]),
{
    let own_fields = game_state.occupied.get(game_state.color_to_move);
    let c = game_state.color_to_move;
    let mut i: u32 = 0;
    proof {
        assert(actionlist@ =~= old(actionlist)@ + spec_drag_moves(*game_state, 0));
    }
    while i < 128
        invariant
            game_state.ply < 250,
            0 <= i <= 128,
            c == game_state.color_to_move,
            own_fields == game_state.occupied.spec_get(c),
            actionlist@ == old(actionlist)@ + spec_drag_moves(*game_state, i as int),
            forall|j: int|
                old(actionlist)@.len() <= j < actionlist@.len() ==> spec_drag_shaped(
                    #[trigger] actionlist@[j],
                ),
        decreases 128 - i,
    {
        if crate::bitops::test_bit(own_fields, i) {
            let from_bit: u128 = 1u128 << (i as u128);
            if (game_state.stack0.red | game_state.stack0.blue) & from_bit > 0 {
                proof {
                    crate::bitops::lemma_single_bit_mask(i as u128);
                }
                let dests = get_neighbours(from_bit) & !game_state.obstacles;
                push_drag_moves(actionlist, PieceType::BEETLE, i, dests);
            } else {
                proof {
                    crate::bitops::lemma_single_bit_mask(i as u128);
                }
                let occupied = (game_state.occupied.red | game_state.occupied.blue) ^ from_bit;
                let neighbours = get_neighbours(from_bit) & occupied;
                if are_connected_in_swarm(occupied, neighbours) {
                    if game_state.bee.get(c) & from_bit > 0 {
                        let dests = get_accessible_neighbors(
                            occupied,
                            game_state.obstacles,
                            from_bit,
                        );
                        push_drag_moves(actionlist, PieceType::BEE, i, dests);
                    } else if game_state.beetle.get(c) & from_bit > 0 {
                        let dests = get_beetle_accessible_neighbours(
                            occupied,
                            game_state.obstacles,
                            from_bit,
                        );
                        push_drag_moves(actionlist, PieceType::BEETLE, i, dests);
                    } else if game_state.ant.get(c) & from_bit > 0 {
                        let dests = get_ant_destinations(occupied, game_state.obstacles, from_bit);
                        push_drag_moves(actionlist, PieceType::ANT, i, dests);
                    } else if game_state.spider.get(c) & from_bit > 0 {
                        let mut dests: u128 = 0;
                        append_spider_destinations(
                            &mut dests,
                            occupied,
                            game_state.obstacles,
                            from_bit,
                            from_bit,
                            3,
                        );
                        push_drag_moves(actionlist, PieceType::SPIDER, i, dests);
                    } else if game_state.grasshopper.get(c) & from_bit > 0 {
                        let dests = get_grasshopper_destinations(
                            occupied,
                            game_state.obstacles,
                            from_bit,
                        );
                        push_drag_moves(actionlist, PieceType::GRASSHOPPER, i, dests);
                    }
                }
            }
        }
        proof {
            assert(actionlist@ =~= old(actionlist)@ + spec_drag_moves(
                *game_state,
                i as int + 1,
            ));
        }
        i = i + 1;
    }
}

/// A node count clamped into a 64-bit word.
pub open spec fn sat64(n: nat) -> u64 {
    if n > u64::MAX {
        u64::MAX
    } else {
        n as u64
    }
}

/// The number of leaf positions of the tree of legal play from `s`,
/// `depth` plies deep: an exhausted depth or a finished game is one
/// leaf; a move that cannot be exactly reversed contributes no subtree,
/// mirroring the counter below, which refuses to walk such a move.
pub open spec fn spec_perft(s: GameState, depth: int) -> nat
    decreases depth, spec_legal_moves(s).len() + 1,
{
    if depth <= 0 || spec_game_finished(s) {
        1
    } else {
        spec_perft_sum(s, spec_legal_moves(s), spec_legal_moves(s).len() as int, depth - 1)
    }
}

/// The summed subtree counts of the first `k` moves, at child depth `cd`.
pub open spec fn spec_perft_sum(s: GameState, moves: Seq<Action>, k: int, cd: int) -> nat
    decreases cd + 1, k,
{
    if k <= 0 || cd < 0 {
        0
    } else {
        spec_perft_sum(s, moves, k - 1, cd) + (if crate::moves::spec_can_invert(s, moves[k - 1]) {
            spec_perft(s.spec_make(moves[k - 1]), cd)
        } else {
            0
        })
    }
}

impl GameState {
    /// Counts the leaf positions reached by applying every legal move to
    /// `depth` plies, used as a correctness oracle against pinned counts;
    /// a finished game is one leaf.  The position is left untouched and
    /// the count saturates at the top of its word.
    #[verifier::rlimit(100)]
    #[verifier::spinoff_prover]
    fn iperft(&mut self, depth: usize) -> (count: u64)
        ensures
            *final(self) == *old(self),
            count == sat64(spec_perft(*old(self), depth as int)),
        decreases depth,
    {
        if depth == 0 {
            return 1;
        }
        if is_game_finished(self) {
            return 1;
        }
        let mut al = ActionList::new();
        calculate_legal_moves(self, &mut al);
        let mut nc: u64 = 0;
        let n = al.size();
        let mut i: usize = 0;
        while i < n
            invariant
                depth >= 1,
                n == al@.len(),
                0 <= i <= n,
                *self == *old(self),
                al@ == spec_legal_moves(*old(self)),
                nc == sat64(spec_perft_sum(*old(self), al@, i as int, depth - 1)),
                forall|j: int| 0 <= j < n ==> old(self).spec_can_make(#[trigger] al@[j]),
            decreases n - i,
        {
            let action = al.get(i);
            let ghost sum_before = spec_perft_sum(*old(self), al@, i as int, depth - 1);
            if self.can_invert(action) {
                let ghost snap = *self;
                self.make_action(action);
                let below = self.iperft(depth - 1);
                self.unmake_action(action);
                proof {
                    crate::moves::lemma_make_unmake(snap, action);
                }
                let ghost child = spec_perft(old(self).spec_make(action), depth - 1);
                if nc <= u64::MAX - below {
                    nc = nc + below;
                } else {
                    nc = u64::MAX;
                }
                proof {
                    assert(spec_perft_sum(*old(self), al@, i as int + 1, depth - 1) == sum_before
                        + child);
                    if sum_before > u64::MAX || child > u64::MAX {
                        assert(nc == u64::MAX);
                    }
                }
            }
            i = i + 1;
        }
        nc
    }

    /// Counts the leaf positions reachable in exactly `depth` plies of
    /// legal play from this position; the count saturates at the top of
    /// its 64-bit word.
    pub fn perft(&self, depth: usize) -> (count: u64)
        ensures
            count == sat64(spec_perft(*self, depth as int)),
    {
        let mut scratch = *self;
        scratch.iperft(depth)
    }

    /// The same node count as `perft`; the per-move breakdown that gives
    /// the function its name is left to callers that walk the move list.
    pub fn perft_div(&self, depth: usize) -> (count: u64)
        ensures
            count == sat64(spec_perft(*self, depth as int)),
    {
        let mut scratch = *self;
        scratch.iperft(depth)
    }
}

/// Every placement the generation order lists on the cells of `mask`
/// sits on a board cell and spends a kind still in supply.
#[verifier::rlimit(100)]
#[verifier::spinoff_prover]
proof fn lemma_set_moves_shape(s: GameState, mask: u128, n: int, a: Action)
    requires
        0 <= n <= 128,
        spec_set_moves(s, mask, n).contains(a),
    ensures
        match a {
            Action::SetMove(pt, to) => to < 128 && s.undeployed.spec_get(
                s.color_to_move,
            ).spec_get(pt) > 0,
            _ => false,
        },
    decreases n,
{
    if n > 0 {
        let whole = spec_set_moves(s, mask, n);
        let prefix = spec_set_moves(s, mask, n - 1);
        let i = choose|i: int| 0 <= i < whole.len() && whole[i] == a;
        if i < prefix.len() {
            lemma_set_moves_shape(s, mask, n - 1, a);
        } else {
            assert(bit(mask, n - 1) && spec_sets_at(s, n - 1).contains(a)) by {
                assert(whole[i] == spec_sets_at(s, n - 1)[i - prefix.len()]);
            }
        }
    }
}

/// Every forced bee placement sits on a board cell with the bee in
/// supply.
#[verifier::rlimit(100)]
#[verifier::spinoff_prover]
proof fn lemma_bee_sets_shape(s: GameState, mask: u128, n: int, a: Action)
    requires
        0 <= n <= 128,
        spec_bee_sets(s, mask, n).contains(a),
    ensures
        match a {
            Action::SetMove(pt, to) => pt == PieceType::BEE && to < 128 && s.undeployed.spec_get(
                s.color_to_move,
            ).bee > 0,
            _ => false,
        },
    decreases n,
{
    if n > 0 {
        let whole = spec_bee_sets(s, mask, n);
        let prefix = spec_bee_sets(s, mask, n - 1);
        let i = choose|i: int| 0 <= i < whole.len() && whole[i] == a;
        if i < prefix.len() {
            lemma_bee_sets_shape(s, mask, n - 1, a);
        }
    }
}

/// Every drag listed for one piece moves it between two board cells.
#[verifier::rlimit(100)]
#[verifier::spinoff_prover]
proof fn lemma_drags_of_shape(pt: PieceType, from: int, dests: u128, n: int, a: Action)
    requires
        0 <= from < 128,
        0 <= n <= 128,
        spec_drags_of(pt, from, dests, n).contains(a),
    ensures
        match a {
            Action::DragMove(p, f, t) => p == pt && f == from && t < 128,
            _ => false,
        },
    decreases n,
{
    if n > 0 {
        let whole = spec_drags_of(pt, from, dests, n);
        let prefix = spec_drags_of(pt, from, dests, n - 1);
        let i = choose|i: int| 0 <= i < whole.len() && whole[i] == a;
        if i < prefix.len() {
            lemma_drags_of_shape(pt, from, dests, n - 1, a);
        }
    }
}

/// Every drag of the mover's piece on `from` moves it between two board
/// cells.
#[verifier::rlimit(100)]
#[verifier::spinoff_prover]
proof fn lemma_drag_actions_shape(s: GameState, from: int, a: Action)
    requires
        0 <= from < 128,
        spec_drag_actions_at(s, from).contains(a),
    ensures
        match a {
            Action::DragMove(p, f, t) => f == from && t < 128,
            _ => false,
        },
{
    if bit(s.stack0.red | s.stack0.blue, from) {
        lemma_drags_of_shape(
            PieceType::BEETLE,
            from,
            spec_neighbours(1u128 << (from as u128)) & !s.obstacles,
            128,
            a,
        );
    } else {
        let from_bit = (1u128 << (from as u128));
        let occupied = (s.occupied.red | s.occupied.blue) ^ from_bit;
        let neighbours = spec_neighbours(from_bit) & occupied;
        if spec_connected_in_swarm(occupied, neighbours) {
            match spec_own_kind(s, from) {
                Some(PieceType::BEE) => lemma_drags_of_shape(
                    PieceType::BEE,
                    from,
                    spec_accessible(occupied, s.obstacles, from_bit),
                    128,
                    a,
                ),
                Some(PieceType::BEETLE) => lemma_drags_of_shape(
                    PieceType::BEETLE,
                    from,
                    spec_beetle_accessible(occupied, s.obstacles, from_bit),
                    128,
                    a,
                ),
                Some(PieceType::ANT) => lemma_drags_of_shape(
                    PieceType::ANT,
                    from,
                    spec_ant_destinations(occupied, s.obstacles, from_bit),
                    128,
                    a,
                ),
                Some(PieceType::SPIDER) => lemma_drags_of_shape(
                    PieceType::SPIDER,
                    from,
                    spec_spider_destinations(occupied, s.obstacles, from_bit),
                    128,
                    a,
                ),
                Some(PieceType::GRASSHOPPER) => lemma_drags_of_shape(
                    PieceType::GRASSHOPPER,
                    from,
                    spec_grasshopper_destinations(occupied, s.obstacles, from_bit),
                    128,
                    a,
                ),
                None => {},
            }
        }
    }
}

/// Every drag the generation order lists moves a piece between two
/// board cells.
#[verifier::rlimit(100)]
#[verifier::spinoff_prover]
proof fn lemma_drag_moves_shape(s: GameState, n: int, a: Action)
    requires
        0 <= n <= 128,
        spec_drag_moves(s, n).contains(a),
    ensures
        match a {
            Action::DragMove(p, f, t) => f < 128 && t < 128,
            _ => false,
        },
    decreases n,
{
    if n > 0 {
        let whole = spec_drag_moves(s, n);
        let prefix = spec_drag_moves(s, n - 1);
        let i = choose|i: int| 0 <= i < whole.len() && whole[i] == a;
        if i < prefix.len() {
            lemma_drag_moves_shape(s, n - 1, a);
        } else {
            assert(spec_drag_actions_at(s, n - 1).contains(a)) by {
                assert(whole[i] == spec_drag_actions_at(s, n - 1)[i - prefix.len()]);
            }
            lemma_drag_actions_shape(s, n - 1, a);
        }
    }
}

/// Every action the generator lists can be applied: its cells lie on
/// the board and a placement spends a kind still in supply.
#[verifier::rlimit(100)]
#[verifier::spinoff_prover]
pub proof fn lemma_legal_moves_can_make(s: GameState, a: Action)
    requires
        s.ply < 255,
        spec_legal_moves(s).contains(a),
    ensures
        s.spec_can_make(a),
{
    if s.ply == 0 {
        lemma_set_moves_shape(s, VALID_FIELDS & !s.obstacles, 128, a);
    } else if s.ply == 1 {
        lemma_set_moves_shape(s, spec_neighbours(s.occupied.red) & !s.obstacles, 128, a);
    } else if s.spec_must_place_bee() {
        let base = spec_bee_sets(s, s.spec_valid_set_destinations(s.color_to_move), 128);
        if base.len() > 0 {
            lemma_bee_sets_shape(s, s.spec_valid_set_destinations(s.color_to_move), 128, a);
        }
    } else {
        let sets = spec_set_moves(s, s.spec_valid_set_destinations(s.color_to_move), 128);
        let all = if s.spec_has_placed_bee() {
            sets + spec_drag_moves(s, 128)
        } else {
            sets
        };
        if all.len() > 0 {
            let i = choose|i: int| 0 <= i < all.len() && all[i] == a;
            if i < sets.len() {
                assert(sets.contains(a));
                lemma_set_moves_shape(s, s.spec_valid_set_destinations(s.color_to_move), 128, a);
            } else {
                assert(spec_drag_moves(s, 128).contains(a)) by {
                    assert(all[i] == spec_drag_moves(s, 128)[i - sets.len()]);
                }
                lemma_drag_moves_shape(s, 128, a);
            }
        }
    }
}

/// Taking back a generated move restores the position exactly: every
/// skip, placement and non-climbing drag that the generator lists is
/// invertible outright.  A climbing move is invertible once the stack
/// conditions of `spec_can_invert` hold of its two cells, which the
/// walkers re-check before applying one.
pub proof fn lemma_generated_moves_invert(s: GameState, a: Action)
    requires
        s.ply < 255,
        spec_legal_moves(s).contains(a),
        !(a matches Action::DragMove(PieceType::BEETLE, _, _)),
    ensures
        crate::moves::spec_can_invert(s, a),
        s.spec_make(a).spec_unmake(a) == s,
{
    lemma_legal_moves_can_make(s, a);
    crate::moves::lemma_make_unmake(s, a);
}

} // verus!
