//! The search engine: iterative deepening around a principal-variation
//! search with transposition caching, null-move pruning, mate-distance
//! pruning, killer and history ordering and a cooperative time budget,
//! plus the capped quiescence search it calls at the horizon.
use crate::action::Action;
use crate::actionlist::{ActionList, ActionListStack};
use crate::cache::{Cache, CacheEntry, EvalCache, EvalCacheEntry, HASH_SIZE};
use crate::evaluation::evaluate;
use crate::gamerules::{calculate_legal_moves, get_result, is_game_finished};
use crate::gamestate::{Color, GameState};
use crate::moveordering::{from_to_of, history_index, qstages, stages, MoveOrderer};
use crate::timecontrol::Timecontrol;
use crate::timer::{duration_millis, instant_elapsed, instant_now};
use vstd::prelude::*;

verus! {

/// The score returned when no line has been searched yet.
pub const STANDARD_SCORE: i16 = -32767;

/// The lowest winning mate score; mate scores grade by distance above it.
pub const MATE_IN_MAX: i16 = 30000;

/// The highest losing mate score.
pub const MATED_IN_MAX: i16 = -30000;

/// The deepest line the search can walk: the ply cap of the game.
pub const MAX_SEARCH_DEPTH: usize = 61;

/// The score of a finished position, seen from the side to move: zero
/// for a draw, else a mate score graded so that shallower nodes carry
/// larger magnitudes, positive exactly when the winner has the move.
pub open spec fn spec_terminal_score(s: GameState, current_depth: int) -> int {
    match crate::gamerules::spec_result(s) {
        None => 0,
        Some(w) => if w == s.color_to_move {
            MATE_IN_MAX + 60 - current_depth
        } else {
            -(MATE_IN_MAX + 60 - current_depth)
        },
    }
}

/// The static evaluation from the side to move's point of view.
pub open spec fn spec_mover_eval(s: GameState) -> int {
    if s.color_to_move == Color::RED {
        crate::evaluation::spec_evaluate(s)
    } else {
        -crate::evaluation::spec_evaluate(s)
    }
}

/// One engine instance: the caches, the ordering tables and the time
/// budget that a sequence of searches shares.
pub struct Searcher {
    pub nodes_searched: u64,
    pub als: ActionListStack,
    pub start_time: Option<std::time::Instant>,
    pub principal_variation_table: ActionList,
    pub principal_variation_hashtable: Vec<u64>,
    pub pv_table: ActionListStack,
    pub stop_flag: bool,
    pub cache: Cache,
    pub eval_cache: EvalCache,
    pub root_plies_played: u8,
    pub tc: Timecontrol,
    pub killer_primary: Vec<Option<Action>>,
    pub killer_secondary: Vec<Option<Action>>,
    pub hh_score: Vec<u64>,
    pub bf_score: Vec<u64>,
}

impl Searcher {
    /// Whether the tables have their fixed sizes.
    pub open spec fn wf(&self) -> bool {
        &&& self.als@.len() == 64
        &&& self.pv_table@.len() == 64
        &&& self.killer_primary@.len() == 64
        &&& self.killer_secondary@.len() == 64
        &&& self.hh_score@.len() == 32768
        &&& self.bf_score@.len() == 32768
        &&& self.cache.wf()
        &&& self.eval_cache.wf()
    }

    /// A searcher with empty tables and the default time budget.
    pub fn new() -> (r: Searcher)
        ensures
            r.wf(),
    {
        let mut killer_primary: Vec<Option<Action>> = Vec::new();
        let mut killer_secondary: Vec<Option<Action>> = Vec::new();
        let mut i: usize = 0;
        while i < 64
            invariant
                killer_primary@.len() == i,
                killer_secondary@.len() == i,
                0 <= i <= 64,
            decreases 64 - i,
        {
            killer_primary.push(None);
            killer_secondary.push(None);
            i = i + 1;
        }
        let mut hh_score: Vec<u64> = Vec::new();
        let mut bf_score: Vec<u64> = Vec::new();
        let mut i: usize = 0;
        while i < 32768
            invariant
                hh_score@.len() == i,
                bf_score@.len() == i,
                0 <= i <= 32768,
            decreases 32768 - i,
        {
            hh_score.push(0);
            bf_score.push(1);
            i = i + 1;
        }
        Searcher {
            nodes_searched: 0,
            als: ActionListStack::with_size(64),
            start_time: None,
            principal_variation_table: ActionList::new(),
            principal_variation_hashtable: Vec::new(),
            pv_table: ActionListStack::with_size(64),
            stop_flag: false,
            cache: Cache::with_size(HASH_SIZE),
            eval_cache: EvalCache::with_size(HASH_SIZE),
            root_plies_played: 0,
            tc: Timecontrol::MoveTime(1800),
            killer_primary,
            killer_secondary,
            hh_score,
            bf_score,
        }
    }

    /// A searcher with the given time budget.
    pub fn with_tc(tc: Timecontrol) -> (r: Searcher)
        ensures
            r.wf(),
    {
        let mut res = Searcher::new();
        res.tc = tc;
        res
    }

    /// Bumps the node counter and, every 4096 nodes, polls the clock and
    /// raises the stop flag once the budget is spent.
    fn tick(&mut self)
        requires
            old(self).wf(),
        ensures
            final(self).wf(),
            final(self).eval_cache == old(self).eval_cache,
            final(self).cache == old(self).cache,
    {
        if self.nodes_searched < u64::MAX {
            self.nodes_searched = self.nodes_searched + 1;
        }
        if self.nodes_searched % 4096 == 0 {
            let elapsed: u64 = match &self.start_time {
                Some(start) => duration_millis(&instant_elapsed(start)),
                None => 0,
            };
            if self.tc.time_over(elapsed) {
                self.stop_flag = true;
            }
        }
    }

    /// Searches the position for the budgeted time and returns the move
    /// the deepest completed iteration liked best; the skip move stands
    /// in when nothing is legal.
    pub fn search_move(&mut self, game_state: &GameState) -> (r: Action)
        requires
            old(self).wf(),
            game_state.ply < 250,
        ensures
            final(self).wf(),
            game_state.spec_can_make(r),
            crate::gamerules::spec_legal_moves(*game_state).len() > 0
                ==> crate::gamerules::spec_legal_moves(*game_state).contains(r),
    {
        let mut al = ActionList::new();
        calculate_legal_moves(game_state, &mut al);
        if al.size() == 0 {
            return Action::SkipMove;
        }
        let mut scratch = *game_state;
        self.nodes_searched = 0;
        self.start_time = Some(instant_now());
        self.principal_variation_table.clear();
        self.principal_variation_hashtable.truncate(0);
        self.stop_flag = false;
        self.root_plies_played = game_state.ply;
        let mut i: usize = 0;
        while i < 64
            invariant
                self.wf(),
                0 <= i <= 64,
            decreases 64 - i,
        {
            self.killer_primary[i] = None;
            self.killer_secondary[i] = None;
            i = i + 1;
        }
        let mut i: usize = 0;
        while i < 32768
            invariant
                self.wf(),
                0 <= i <= 32768,
            decreases 32768 - i,
        {
            self.hh_score[i] = self.hh_score[i] / 8;
            let shrunk = self.bf_score[i] / 8;
            self.bf_score[i] = if shrunk > 1 {
                shrunk
            } else {
                1
            };
            i = i + 1;
        }
        let current_max_depth: usize = if game_state.ply < 61 {
            61 - game_state.ply as usize
        } else {
            1
        };
        let mut depth: usize = 1;
        while depth <= current_max_depth
            invariant
                self.wf(),
                scratch == *game_state,
                game_state.ply < 250,
                1 <= depth <= current_max_depth + 1,
                current_max_depth <= 61,
            decreases current_max_depth + 1 - depth,
        {
            principal_variation_search(self, &mut scratch, 0, depth, STANDARD_SCORE, 32767);
            if self.stop_flag {
                break ;
            }
            let pv = self.pv_table.take_level(0);
            self.principal_variation_table.copy_from(&pv);
            self.pv_table.put_level(0, pv);
            self.principal_variation_hashtable.truncate(0);
            let mut toy = *game_state;
            let mut j: usize = 0;
            let n = self.principal_variation_table.size();
            while j < n
                invariant
                    self.wf(),
                    n == self.principal_variation_table@.len(),
                    0 <= j <= n,
                decreases n - j,
            {
                self.principal_variation_hashtable.push(toy.hash);
                let a = self.principal_variation_table.get(j);
                if toy.can_invert(a) {
                    toy.make_action(a);
                }
                j = j + 1;
            }
            depth = depth + 1;
        }
        if self.principal_variation_table.size() > 0 {
            let best = self.principal_variation_table.get(0);
            match al.find_action(best) {
                Some(i) => {
                    if game_state.can_invert(best) {
                        proof {
                            assert(crate::gamerules::spec_legal_moves(*game_state)[i as int]
                                == best);
                        }
                        return best;
                    }
                },
                None => {},
            }
        }
        let fallback = al.get(0);
        proof {
            assert(crate::gamerules::spec_legal_moves(*game_state)[0] == fallback);
        }
        fallback
    }
}

/// Clamps a wide score into the 16-bit score range.
fn clamp_score(x: i64) -> (r: i16)
    ensures
        -32767 <= r <= 32767,
        -32767 <= x <= 32767 ==> r == x,
{
    if x > 32767 {
        32767
    } else if x < -32767 {
        -32767
    } else {
        x as i16
    }
}

/// The principal-variation search: examines every move of the node in
/// the ordering's sequence, with transposition cutoffs, null-move
/// pruning and mate-distance pruning; the position handed in is returned
/// exactly as it was, every tried move having been taken back.
#[verifier::rlimit(100)]
#[verifier::spinoff_prover]
#[verifier::loop_isolation(false)]
pub fn principal_variation_search(
    searcher: &mut Searcher,
    game_state: &mut GameState,
    current_depth: usize,
    depth_left: usize,
    alpha_in: i16,
    beta_in: i16,
) -> (score: i16)
    requires
        old(searcher).wf(),
        old(game_state).ply < 250,
        current_depth <= old(game_state).ply,
        current_depth <= 60,
        depth_left <= 61,
    ensures
        final(searcher).wf(),
        *final(game_state) == *old(game_state),
        -32767 <= score <= 32767,
        crate::gamerules::spec_game_finished(*old(game_state)) && !final(searcher).stop_flag
            ==> score == spec_terminal_score(*old(game_state), current_depth as int),
    decreases depth_left,
{
    let mut alpha: i64 = alpha_in as i64;
    let mut beta: i64 = beta_in as i64;
    searcher.tick();
    if searcher.stop_flag {
        return STANDARD_SCORE;
    }
    let root = current_depth == 0;
    let pv_node = beta > 1 + alpha;
    let color: i64 = if matches!(game_state.color_to_move, Color::RED) {
        1
    } else {
        -1
    };
    let original_alpha = alpha;
    if is_game_finished(game_state) {
        let winner = get_result(game_state);
        match winner {
            None => {
                return 0;
            },
            Some(w) => {
                let base: i64 = MATE_IN_MAX as i64 + 60 - current_depth as i64;
                let red_wins = matches!(w, Color::RED);
                let signed = if (red_wins && color == 1) || (!red_wins && color == -1) {
                    base
                } else {
                    -base
                };
                return clamp_score(signed);
            },
        }
    }
    // Mate distance pruning: no line from here can beat an already found
    // nearer mate.
    let mate_bound: i64 = MATE_IN_MAX as i64 + 60 - current_depth as i64 - 1;
    if alpha < -mate_bound {
        alpha = -mate_bound;
    }
    if beta > mate_bound {
        beta = mate_bound;
    }
    if alpha >= beta {
        return clamp_score(alpha);
    }
    if depth_left == 0 {
        return qsearch(searcher, game_state, current_depth, alpha_in, beta_in);
    }
    let pv_action: Option<Action> = if searcher.principal_variation_table.size() > current_depth
        && searcher.principal_variation_hashtable.len() > current_depth {
        if searcher.principal_variation_hashtable[current_depth] == game_state.hash {
            Some(searcher.principal_variation_table.get(current_depth))
        } else {
            None
        }
    } else {
        None
    };
    let mut tt_action: Option<Action> = None;
    match searcher.cache.lookup(game_state.hash) {
        Some(ce) => {
            if ce.depth as usize >= depth_left && ce.depth < 255 && !root {
                let tt_score: i64 = if ce.score >= MATE_IN_MAX {
                    ce.score as i64 - current_depth as i64
                } else if ce.score <= MATED_IN_MAX {
                    ce.score as i64 + current_depth as i64
                } else {
                    ce.score as i64
                };
                let exact = !ce.alpha && !ce.beta;
                let lower = ce.beta && tt_score >= beta;
                let upper = ce.alpha && alpha >= tt_score;
                if exact || lower || upper {
                    return clamp_score(tt_score);
                }
            }
            tt_action = Some(ce.action);
        },
        None => {},
    }
    // Null-move pruning: when standing pat already clears beta, give the
    // turn away and verify with a reduced search.
    if !pv_node && depth_left > 3 && (game_state.ply as usize) + depth_left < 60 && (
    !game_state.must_player_place_bee() || game_state.has_player_placed_bee()) {
        let ev = evaluate(game_state) as i64;
        let stand = if color == 1 {
            ev
        } else {
            -ev
        };
        if stand >= beta && game_state.can_invert(Action::SkipMove) {
            let ghost snap = *game_state;
            game_state.make_action(Action::SkipMove);
            let reduced = if depth_left >= 4 {
                depth_left - 3
            } else {
                1
            };
            let nb = clamp_score(-beta);
            let nb1 = clamp_score(-beta + 1);
            let following = -(principal_variation_search(
                searcher,
                game_state,
                current_depth + 1,
                reduced,
                nb,
                nb1,
            ) as i64);
            game_state.unmake_action(Action::SkipMove);
            proof {
                crate::moves::lemma_make_unmake(snap, Action::SkipMove);
            }
            if following >= beta && !searcher.stop_flag {
                return clamp_score(following);
            }
        }
    }
    let mut current_max_score: i64 = STANDARD_SCORE as i64;
    let mut my_pv = ActionList::new();
    let mut move_buffer = searcher.als.take_level(current_depth);
    move_buffer.clear();
    let mut orderer = MoveOrderer::with_stages(stages(), move_buffer);
    let killer0 = searcher.killer_primary[current_depth];
    let killer1 = searcher.killer_secondary[current_depth];
    let mut tried: u32 = 0;
    loop
        invariant
            searcher.wf(),
            *game_state == *old(game_state),
            orderer.wf(),
            game_state.ply < 250,
            current_depth <= game_state.ply,
            current_depth <= 60,
            depth_left >= 1,
            tried <= 100000,
            -32767 <= alpha <= 32767,
            -32767 <= beta <= 32767,
            -32767 <= current_max_score <= 32767,
        decreases 100000 - tried,
    {
        if tried >= 100000 {
            break ;
        }
        let next_action = orderer.next(
            game_state,
            killer0,
            killer1,
            &searcher.hh_score,
            &searcher.bf_score,
            pv_action,
            tt_action,
        );
        let action = match next_action {
            Some(a) => a,
            None => {
                break ;
            },
        };
        if !game_state.can_invert(action) {
            tried = tried + 1;
            continue ;
        }
        let ghost snap = *game_state;
        game_state.make_action(action);
        let na = clamp_score(-alpha);
        let nb = clamp_score(-beta);
        let na1 = clamp_score(-alpha - 1);
        let following_score: i64 = if depth_left <= 2 || !pv_node || tried == 0 {
            -(principal_variation_search(
                searcher,
                game_state,
                current_depth + 1,
                depth_left - 1,
                nb,
                na,
            ) as i64)
        } else {
            let zw = -(principal_variation_search(
                searcher,
                game_state,
                current_depth + 1,
                depth_left - 1,
                na1,
                na,
            ) as i64);
            if zw > alpha {
                -(principal_variation_search(
                    searcher,
                    game_state,
                    current_depth + 1,
                    depth_left - 1,
                    nb,
                    na,
                ) as i64)
            } else {
                zw
            }
        };
        game_state.unmake_action(action);
        proof {
            crate::moves::lemma_make_unmake(snap, action);
        }
        if following_score > current_max_score && !searcher.stop_flag {
            current_max_score = following_score;
            my_pv.clear();
            my_pv.push(action);
            if pv_node {
                let child = searcher.pv_table.take_level(current_depth + 1);
                let mut j: usize = 0;
                let n = child.size();
                while j < n
                    invariant
                        0 <= j <= n == child@.len(),
                    decreases n - j,
                {
                    my_pv.push(child.get(j));
                    j = j + 1;
                }
                searcher.pv_table.put_level(current_depth + 1, child);
            }
        }
        if following_score > alpha {
            alpha = following_score;
        }
        let (from, to) = from_to_of(action);
        let hidx = history_index(game_state.color_to_move, from, to);
        if alpha >= beta {
            if Some(action) != searcher.killer_primary[current_depth] && Some(action)
                != searcher.killer_secondary[current_depth] {
                let before = searcher.killer_primary[current_depth];
                searcher.killer_primary[current_depth] = Some(action);
                searcher.killer_secondary[current_depth] = before;
                let bumped = searcher.hh_score[hidx];
                if bumped <= u64::MAX - depth_left as u64 {
                    searcher.hh_score[hidx] = bumped + depth_left as u64;
                }
            }
            break ;
        } else {
            let bumped = searcher.bf_score[hidx];
            if bumped <= u64::MAX - depth_left as u64 {
                searcher.bf_score[hidx] = bumped + depth_left as u64;
            }
        }
        tried = tried + 1;
    }
    if !searcher.stop_flag && my_pv.size() > 0 {
        let stored_score: i64 = if current_max_score >= MATE_IN_MAX as i64 || current_max_score
            <= MATED_IN_MAX as i64 {
            let magnitude = if current_max_score >= 0 {
                current_max_score
            } else {
                -current_max_score
            };
            let mate_length = MATE_IN_MAX as i64 + 60 - magnitude;
            let remaining = mate_length - current_depth as i64;
            let rebased = MATE_IN_MAX as i64 + 60 - remaining;
            if current_max_score >= 0 {
                rebased
            } else {
                -rebased
            }
        } else {
            current_max_score
        };
        let h = game_state.hash;
        proof {
            assert(h >> 32 <= 0xffffffffu64) by (bit_vector);
        }
        let entry = CacheEntry {
            upper_hash: (h >> 32) as u32,
            lower_hash: (h & 0xffffffff) as u32,
            action: my_pv.get(0),
            score: clamp_score(stored_score),
            alpha: current_max_score <= original_alpha,
            beta: alpha >= beta,
            depth: if depth_left < 255 {
                depth_left as u8
            } else {
                254
            },
            plies: game_state.ply,
        };
        searcher.cache.insert(game_state.hash, entry, searcher.root_plies_played);
    }
    searcher.als.put_level(current_depth, orderer.release());
    let my_pv_final = my_pv;
    searcher.pv_table.put_level(current_depth, my_pv_final);
    clamp_score(current_max_score)
}

/// The quiescence search: stands pat on the static evaluation and only
/// follows the forcing pin moves, so tactical noise at the horizon does
/// not distort the evaluation; the position is restored exactly.
#[verifier::rlimit(100)]
#[verifier::spinoff_prover]
pub fn qsearch(
    searcher: &mut Searcher,
    game_state: &mut GameState,
    current_depth: usize,
    alpha_in: i16,
    beta_in: i16,
) -> (score: i16)
    requires
        old(searcher).wf(),
        old(game_state).ply < 250,
        current_depth <= 60,
    ensures
        final(searcher).wf(),
        *final(game_state) == *old(game_state),
        -32767 <= score <= 32767,
        crate::gamerules::spec_game_finished(*old(game_state)) && !final(searcher).stop_flag
            ==> score == spec_terminal_score(*old(game_state), current_depth as int),
        (!crate::gamerules::spec_game_finished(*old(game_state)) && !final(searcher).stop_flag
            && old(searcher).eval_cache.cache@[(old(game_state).hash % old(
            searcher,
        ).eval_cache.buckets as u64) as int].spec_probe(old(game_state).hash) is None) ==> score
            >= spec_mover_eval(*old(game_state)),
    decreases 61 - old(game_state).ply,
{
    let mut alpha: i64 = alpha_in as i64;
    let beta: i64 = beta_in as i64;
    searcher.tick();
    if searcher.stop_flag {
        return STANDARD_SCORE;
    }
    let color: i64 = if matches!(game_state.color_to_move, Color::RED) {
        1
    } else {
        -1
    };
    if is_game_finished(game_state) {
        let winner = get_result(game_state);
        match winner {
            None => {
                return 0;
            },
            Some(w) => {
                let base: i64 = MATE_IN_MAX as i64 + 60 - current_depth as i64;
                let red_wins = matches!(w, Color::RED);
                let signed = if (red_wins && color == 1) || (!red_wins && color == -1) {
                    base
                } else {
                    -base
                };
                return clamp_score(signed);
            },
        }
    }
    let ghost fresh_eval = searcher.eval_cache.cache@[(game_state.hash
        % searcher.eval_cache.buckets as u64) as int].spec_probe(game_state.hash) is None;
    let standing_pat: i64 = match searcher.eval_cache.lookup(game_state.hash) {
        Some(ce) => ce.score as i64,
        None => {
            let ev = evaluate(game_state) as i64;
            let evaluation = if color == 1 {
                ev
            } else {
                -ev
            };
            let h = game_state.hash;
            proof {
                assert(h >> 32 <= 0xffffffffu64) by (bit_vector);
            }
            let entry = EvalCacheEntry {
                upper_hash: (h >> 32) as u32,
                lower_hash: (h & 0xffffffff) as u32,
                score: clamp_score(evaluation),
            };
            searcher.eval_cache.insert(game_state.hash, entry);
            clamp_score(evaluation) as i64
        },
    };
    proof {
        assert(fresh_eval ==> standing_pat == spec_mover_eval(*old(game_state)));
    }
    // Delta pruning: a hopeless node is not worth expanding.
    if alpha > standing_pat + 50 {
        return clamp_score(standing_pat);
    }
    if standing_pat > alpha {
        alpha = standing_pat;
    }
    if alpha >= beta {
        return clamp_score(alpha);
    }
    let mut tt_action: Option<Action> = None;
    match searcher.cache.lookup(game_state.hash) {
        Some(ce) => {
            tt_action = Some(ce.action);
        },
        None => {},
    }
    let mut current_max_score = standing_pat;
    let ghost stand0 = standing_pat;
    let mut move_buffer = searcher.als.take_level(current_depth);
    move_buffer.clear();
    let mut orderer = MoveOrderer::with_stages(qstages(), move_buffer);
    let mut tried: u32 = 0;
    loop
        invariant
            searcher.wf(),
            *game_state == *old(game_state),
            orderer.wf(),
            game_state.ply < 61,
            current_depth <= 60,
            tried <= 100000,
            -32768 <= alpha <= 32767,
            -32768 <= beta <= 32767,
            -32768 <= current_max_score <= 32767,
            current_max_score >= stand0,
        decreases 100000 - tried,
    {
        if tried >= 100000 {
            break ;
        }
        let next_action = orderer.next(
            game_state,
            None,
            None,
            &searcher.hh_score,
            &searcher.bf_score,
            None,
            tt_action,
        );
        let action = match next_action {
            Some(a) => a,
            None => {
                break ;
            },
        };
        if !game_state.can_invert(action) {
            tried = tried + 1;
            continue ;
        }
        let ghost snap = *game_state;
        game_state.make_action(action);
        let na = clamp_score(-alpha);
        let nb = clamp_score(-beta);
        let following_score = -(qsearch(
            searcher,
            game_state,
            if current_depth < 60 {
                current_depth + 1
            } else {
                60
            },
            nb,
            na,
        ) as i64);
        game_state.unmake_action(action);
        proof {
            crate::moves::lemma_make_unmake(snap, action);
        }
        if searcher.stop_flag {
            break ;
        }
        if following_score > current_max_score {
            current_max_score = following_score;
        }
        if following_score > alpha {
            alpha = following_score;
        }
        if alpha >= beta {
            break ;
        }
        tried = tried + 1;
    }
    searcher.als.put_level(current_depth, orderer.release());
    clamp_score(current_max_score)
}

} // verus!
