//! End-to-end checks of the engine: the perft oracle, the text codec
//! round trip, make/unmake, the caches, the evaluation and the search.
use hive_engine::action::Action;
use hive_engine::actionlist::ActionList;
use hive_engine::bitboard;
use hive_engine::cache::{Cache, CacheBucket, CacheEntry, EvalCache, EvalCacheEntry};
use hive_engine::gamerules::{
    are_connected_in_swarm, calculate_legal_moves, get_result, is_game_finished,
};
use hive_engine::gamestate::{Color, GameState};
use hive_engine::piece_type::PieceType;
use hive_engine::search::Searcher;
use hive_engine::timecontrol::Timecontrol;

fn start_position() -> GameState {
    GameState::new()
}

fn empty_fen() -> String {
    "0 RED 0 0 0 0 0 0 0 0 0 0 0 0 0 0 0 0 0 0 0".to_string()
}

#[test]
fn perftsuite() {
    // Golden node counts from the empty starting position, pinned once
    // and kept as a regression oracle.
    let state = start_position();
    let expected: [u64; 3] = [455, 12000, 155100];
    for (i, value) in expected.iter().enumerate() {
        assert_eq!(state.perft(i + 1), *value);
    }
}

#[test]
fn perft_depth_zero_is_one_leaf() {
    let state = start_position();
    assert_eq!(state.perft(0), 1);
    assert_eq!(state.perft_div(2), 12000);
}

#[test]
fn opening_placements_cover_every_cell_and_kind() {
    // The example scenario: the empty board offers one placement per
    // (valid cell, piece kind) pair.
    let state = GameState::from_fen(empty_fen()).unwrap();
    let mut al = ActionList::new();
    calculate_legal_moves(&state, &mut al);
    assert_eq!(al.size(), 455);
    for i in 0..al.size() {
        assert!(matches!(al.get(i), Action::SetMove(_, _)));
    }
}

#[test]
fn fen_round_trip_restores_every_field() {
    let mut state = start_position();
    let mut al = ActionList::new();
    for _ in 0..6 {
        calculate_legal_moves(&state, &mut al);
        assert!(al.size() > 0);
        let a = al.get(al.size() / 2);
        assert!(state.can_invert(a));
        state.make_action(a);
    }
    let fen = state.to_fen();
    let back = GameState::from_fen(fen).unwrap();
    assert_eq!(back, state);
    assert_eq!(back.hash, state.hash);
}

#[test]
fn fen_rejects_malformed_encodings() {
    assert!(GameState::from_fen("".to_string()).is_none());
    assert!(GameState::from_fen("0 RED 0".to_string()).is_none());
    assert!(
        GameState::from_fen("0 GREEN 0 0 0 0 0 0 0 0 0 0 0 0 0 0 0 0 0 0 0".to_string()).is_none()
    );
    assert!(
        GameState::from_fen("x RED 0 0 0 0 0 0 0 0 0 0 0 0 0 0 0 0 0 0 0".to_string()).is_none()
    );
    assert!(GameState::from_fen(empty_fen()).is_some());
    // The colour token is case-insensitive.
    let relaxed = GameState::from_fen("0 Red 0 0 0 0 0 0 0 0 0 0 0 0 0 0 0 0 0 0 0".to_string());
    assert_eq!(relaxed.unwrap(), GameState::from_fen(empty_fen()).unwrap());
    assert!(
        GameState::from_fen("1 bLuE 0 0 0 0 0 0 0 0 0 0 0 0 0 0 0 0 0 0 0".to_string()).is_some()
    );
}

#[test]
fn make_unmake_restores_the_position_exactly() {
    let mut state = start_position();
    let mut al = ActionList::new();
    // Walk a few plies, then at each later position check every legal
    // action against the inverse property.
    for step in 0..8 {
        calculate_legal_moves(&state, &mut al);
        let snapshot = state;
        for i in 0..al.size() {
            let a = al.get(i);
            assert!(state.can_invert(a), "move {:?} should be invertible", a);
            state.make_action(a);
            state.unmake_action(a);
            assert_eq!(state, snapshot);
            assert_eq!(state.hash, snapshot.hash);
        }
        let a = al.get((step * 3) % al.size());
        state.make_action(a);
    }
}

#[test]
fn connectivity_invariant_holds_through_legal_play() {
    // Every position reached by legal play keeps its pieces connected.
    let mut state = start_position();
    let mut al = ActionList::new();
    for step in 0..20 {
        if is_game_finished(&state) {
            break;
        }
        calculate_legal_moves(&state, &mut al);
        let occupied = state.occupied();
        assert!(
            are_connected_in_swarm(occupied, occupied),
            "hive disconnected at step {}",
            step
        );
        let a = al.get((step * 7) % al.size());
        state.make_action(a);
    }
}

#[test]
fn generated_moves_never_target_obstacles() {
    let mut fen = String::from("4 RED ");
    // One obstacle on cell 60, a bee on 59 and one on 61.
    fen.push_str(&(1u128 << 60).to_string());
    fen.push_str(" 0 0 0 0 0 0 0 0 ");
    fen.push_str(&(1u128 << 59).to_string());
    fen.push_str(" 0 0 0 0 ");
    fen.push_str(&(1u128 << 61).to_string());
    fen.push_str(" 0 0 0 0");
    let state = GameState::from_fen(fen).unwrap();
    let mut al = ActionList::new();
    calculate_legal_moves(&state, &mut al);
    for i in 0..al.size() {
        match al.get(i) {
            Action::SetMove(_, to) => assert_ne!(to, 60),
            Action::DragMove(_, _, to) => assert_ne!(to, 60),
            Action::SkipMove => {}
        }
    }
}

#[test]
fn skip_move_only_stands_alone() {
    let mut state = start_position();
    let mut al = ActionList::new();
    let mut steps = 0;
    while !is_game_finished(&state) && steps < 40 {
        calculate_legal_moves(&state, &mut al);
        let mut has_skip = false;
        for i in 0..al.size() {
            if matches!(al.get(i), Action::SkipMove) {
                has_skip = true;
            }
        }
        if has_skip {
            assert_eq!(al.size(), 1);
        }
        state.make_action(al.get(steps % al.size()));
        steps += 1;
    }
}

#[test]
fn neighbours_of_a_central_cell() {
    let n = bitboard::get_neighbours(1u128 << 60);
    let expected: u128 =
        (1u128 << 59) | (1u128 << 61) | (1u128 << 71) | (1u128 << 72) | (1u128 << 48) | (1u128 << 49);
    assert_eq!(n, expected);
    // Shifting off the west edge of a row must not wrap to the next row.
    assert_eq!(bitboard::shift_west(1u128 << 55) & bitboard::VALID_FIELDS, 0);
}

#[test]
fn action_text_round_trip() {
    let actions = [
        Action::SkipMove,
        Action::SetMove(PieceType::BEE, 60),
        Action::SetMove(PieceType::GRASSHOPPER, 0),
        Action::DragMove(PieceType::ANT, 59, 61),
        Action::DragMove(PieceType::SPIDER, 120, 3),
    ];
    for a in actions.iter() {
        let text = a.to_string();
        assert_eq!(Action::from_string(text), Some(*a));
    }
    assert_eq!(
        Action::from_string("SetMove Q 12".to_string()),
        Some(Action::SetMove(PieceType::BEE, 12))
    );
    // The move word is matched without regard to letter case.
    assert_eq!(
        Action::from_string("SETMOVE Q 12".to_string()),
        Some(Action::SetMove(PieceType::BEE, 12))
    );
    assert_eq!(
        Action::from_string("skipmove".to_string()),
        Some(Action::SkipMove)
    );
    assert_eq!(
        Action::from_string("dragmove a 3 4".to_string()),
        Some(Action::DragMove(PieceType::ANT, 3, 4))
    );
    assert_eq!(Action::from_string("Hop Q 12".to_string()), None);
    assert_eq!(Action::from_string("SetMove Q 999".to_string()), None);
    assert_eq!(Action::from_string("SetMove Z 12".to_string()), None);
}

#[test]
fn piece_type_letters() {
    assert_eq!(PieceType::BEE.to_string(), "Q");
    assert_eq!(
        PieceType::from_string("g".to_string()),
        Some(PieceType::GRASSHOPPER)
    );
    assert_eq!(PieceType::from_string("Z".to_string()), None);
    assert_eq!(PieceType::from_string("QA".to_string()), None);
}

#[test]
fn action_xml_encoding() {
    let xml = Action::SkipMove.get_xml(Color::RED);
    assert_eq!(xml, "<data class=\"skipmove\" />");
    let xml = Action::SetMove(PieceType::ANT, 60).get_xml(Color::BLUE);
    assert!(xml.contains("owner=\"BLUE\""));
    assert!(xml.contains("type=\"ANT\""));
    assert!(xml.contains("x=\"0\" y=\"0\" z=\"0\""));
}

#[test]
fn transposition_cache_protects_the_deep_entry() {
    // Filling a bucket with shallow probes must not evict the deepest,
    // freshest entry in the protected slot.
    let mut cache = Cache::with_size(1);
    let deep_hash: u64 = 12345;
    let deep = CacheEntry {
        upper_hash: (deep_hash >> 32) as u32,
        lower_hash: (deep_hash & 0xffffffff) as u32,
        action: Action::SetMove(PieceType::BEE, 7),
        score: 99,
        depth: 20,
        alpha: false,
        beta: false,
        plies: 4,
    };
    cache.insert(deep_hash, deep, 4);
    let buckets = cache.buckets as u64;
    for k in 1..40u64 {
        let h = deep_hash + k * buckets;
        let shallow = CacheEntry {
            upper_hash: (h >> 32) as u32,
            lower_hash: (h & 0xffffffff) as u32,
            action: Action::SkipMove,
            score: 1,
            depth: 2,
            alpha: true,
            beta: false,
            plies: 4,
        };
        cache.insert(h, shallow, 4);
    }
    let found = cache.lookup(deep_hash).expect("deep entry was evicted");
    assert_eq!(found.score, 99);
    assert_eq!(found.depth, 20);
}

#[test]
fn eval_cache_keeps_recent_entries() {
    let mut cache = EvalCache::with_size(1);
    let hash: u64 = 777;
    cache.insert(
        hash,
        EvalCacheEntry {
            upper_hash: (hash >> 32) as u32,
            lower_hash: (hash & 0xffffffff) as u32,
            score: 42,
        },
    );
    assert_eq!(cache.lookup(hash).unwrap().score, 42);
    assert!(cache.lookup(hash ^ 1).is_none());
}

#[test]
fn evaluation_of_the_start_is_the_tempo_bonus() {
    let state = start_position();
    assert_eq!(hive_engine::evaluation::evaluate(&state), 12);
}

#[test]
fn timecontrol_budgets() {
    let infinite = Timecontrol::Infinite;
    assert!(!infinite.time_over(1_000_000));
    assert_eq!(infinite.time_left(5), 2000);
    let fixed = Timecontrol::MoveTime(100);
    assert!(!fixed.time_over(99));
    assert!(fixed.time_over(100));
    assert_eq!(fixed.time_left(30), 70);
}

#[test]
fn search_returns_a_legal_move_within_budget() {
    // A fixed 60-millisecond budget: the search must come back with one
    // of the currently legal actions.
    let mut state = start_position();
    let mut al = ActionList::new();
    for i in 0..4 {
        calculate_legal_moves(&state, &mut al);
        state.make_action(al.get(i + 2));
    }
    let mut searcher = Searcher::with_tc(Timecontrol::MoveTime(60));
    let chosen = searcher.search_move(&state);
    calculate_legal_moves(&state, &mut al);
    let mut found = false;
    for i in 0..al.size() {
        if al.get(i) == chosen {
            found = true;
        }
    }
    assert!(found, "search returned {:?}, not in the legal list", chosen);
}

#[test]
fn game_end_detection_and_result() {
    let state = start_position();
    assert!(!is_game_finished(&state));
    let mut late = state;
    late.ply = 60;
    assert!(is_game_finished(&late));
    // A missing bee loses outright.
    assert_eq!(get_result(&late), Some(Color::BLUE));
    // Two bees with equal breathing room draw.
    let mut fen = String::from("60 RED ");
    fen.push_str(&(1u128 << 60).to_string());
    fen.push_str(" 0 0 0 0 0 0 0 0 ");
    fen.push_str(&(1u128 << 59).to_string());
    fen.push_str(" 0 0 0 0 ");
    fen.push_str(&(1u128 << 61).to_string());
    fen.push_str(" 0 0 0 0");
    let drawn = GameState::from_fen(fen).unwrap();
    assert_eq!(get_result(&drawn), None);
}

#[test]
fn hash_changes_with_the_move_and_recomputes() {
    let mut state = start_position();
    assert_eq!(state.hash, state.calculate_hash());
    let mut al = ActionList::new();
    calculate_legal_moves(&state, &mut al);
    let before = state.hash;
    state.make_action(al.get(0));
    assert_ne!(state.hash, before);
    assert_eq!(state.hash, state.calculate_hash());
}

#[test]
fn supply_counters_follow_the_boards() {
    let mut state = start_position();
    let mut al = ActionList::new();
    calculate_legal_moves(&state, &mut al);
    state.make_action(al.get(0));
    let mut recounted = state;
    recounted.recalculate_undeployed();
    assert_eq!(recounted, state);
}

#[test]
fn board_rendering_marks_cells() {
    let s = GameState::bb_to_string(1u128 << 60);
    assert!(s.contains('X'));
    assert!(s.len() > 100);
}

#[test]
fn no_bee_placement_detector() {
    let mut al = ActionList::new();
    al.push(Action::SetMove(PieceType::ANT, 3));
    assert!(hive_engine::has_no_beesetmove(&al));
    al.push(Action::SetMove(PieceType::BEE, 4));
    assert!(!hive_engine::has_no_beesetmove(&al));
}

#[test]
fn magic_utilities_accept_the_shipped_multiplier() {
    let (ok, table) = hive_engine::neighbor_magic::is_valid_magic(
        hive_engine::neighbor_magic::NEIGHBOR_MAGIC,
    );
    assert!(ok);
    assert_eq!(table.unwrap().len(), 64);
}

#[test]
fn hash_keys_are_deterministic() {
    let a = hive_engine::hashing::HashKeys::new();
    let b = hive_engine::hashing::HashKeys::new();
    assert_eq!(a.color_to_move, b.color_to_move);
    assert_eq!(a.piece_keys, b.piece_keys);
    let rendered = hive_engine::hashing::HashKeys::arr_to_string(&vec![1, 22]);
    assert_eq!(rendered, "[1, 22, ];");
}

#[test]
fn random_start_has_three_blocked_cells() {
    let state = GameState::random();
    assert_eq!(state.obstacles.count_ones(), 3);
    assert_eq!(state.obstacles & !bitboard::VALID_FIELDS, 0);
    assert_eq!(state.ply, 0);
    let mut al = ActionList::new();
    calculate_legal_moves(&state, &mut al);
    assert_eq!(al.size(), 5 * (91 - 3));
}

#[test]
fn piece_kinds_walk_in_generation_order() {
    let order = hive_engine::piece_type::piece_type_variants();
    assert_eq!(
        order,
        vec![
            PieceType::BEE,
            PieceType::BEETLE,
            PieceType::ANT,
            PieceType::GRASSHOPPER,
            PieceType::SPIDER
        ]
    );
}
