//! Staged move ordering for the search: the remembered best line first,
//! then the cached refutation, then moves that pin an enemy piece, then
//! killers, then quiet moves by their history score, and finally the
//! losing pins.
use crate::action::Action;
use crate::actionlist::ActionList;
use crate::bitboard::get_neighbours;
use crate::bitops::lowest_bit;
use crate::evaluation::can_be_removed;
use crate::gamerules::calculate_legal_moves;
use crate::gamestate::{Color, GameState};
use crate::piece_type::PieceType;
use vstd::multiset::Multiset;
use vstd::prelude::*;

verus! {

/// The score below every real ordering score, marking an unscored move.
pub const UNSCORED: i64 = -0x4000000000000000;

#[derive(Copy, Clone, PartialEq, Eq, Structural, Debug)]
pub enum MoveOrderingStage {
    GenerateMoves,
    PVMove,
    TTMove,
    PinInitialization,
    Pins,
    Killer,
    QuietInitialization,
    Quiet,
    BadPins,
}

/// The stage order of the main search.
pub fn stages() -> (v: Vec<MoveOrderingStage>)
    ensures
        v@.len() == 9,
{
    let mut v: Vec<MoveOrderingStage> = Vec::new();
    v.push(MoveOrderingStage::GenerateMoves);
    v.push(MoveOrderingStage::PVMove);
    v.push(MoveOrderingStage::TTMove);
    v.push(MoveOrderingStage::PinInitialization);
    v.push(MoveOrderingStage::Pins);
    v.push(MoveOrderingStage::Killer);
    v.push(MoveOrderingStage::QuietInitialization);
    v.push(MoveOrderingStage::Quiet);
    v.push(MoveOrderingStage::BadPins);
    v
}

/// The stage order of the quiescence search: only the remembered line,
/// the cached refutation and the pinning moves are examined.
pub fn qstages() -> (v: Vec<MoveOrderingStage>)
    ensures
        v@.len() == 5,
{
    let mut v: Vec<MoveOrderingStage> = Vec::new();
    v.push(MoveOrderingStage::GenerateMoves);
    v.push(MoveOrderingStage::PVMove);
    v.push(MoveOrderingStage::TTMove);
    v.push(MoveOrderingStage::PinInitialization);
    v.push(MoveOrderingStage::Pins);
    v
}

/// The ordering value of attacking with this piece kind: cheap attackers
/// first.
fn attacker_value(pt: PieceType) -> (r: i64)
    ensures
        1 <= r <= 5,
{
    match pt {
        PieceType::BEE => 5,
        PieceType::ANT => 1,
        PieceType::BEETLE => 4,
        PieceType::GRASSHOPPER => 3,
        PieceType::SPIDER => 2,
    }
}

/// The ordering value of threatening this piece kind: the bee above all.
fn target_value(pt: PieceType) -> (r: i64)
    ensures
        100 <= r <= 500,
{
    match pt {
        PieceType::BEE => 500,
        PieceType::ANT => 400,
        PieceType::BEETLE => 300,
        PieceType::GRASSHOPPER => 100,
        PieceType::SPIDER => 200,
    }
}

/// The piece kind of `color` standing at `cell`, if any.
fn piece_kind_at(game_state: &GameState, color: Color, cell: u32) -> (r: Option<PieceType>)
    requires
        cell < 128,
{
    let b: u128 = 1u128 << (cell as u128);
    if game_state.bee.get(color) & b > 0 {
        Some(PieceType::BEE)
    } else if game_state.ant.get(color) & b > 0 {
        Some(PieceType::ANT)
    } else if game_state.beetle.get(color) & b > 0 {
        Some(PieceType::BEETLE)
    } else if game_state.grasshopper.get(color) & b > 0 {
        Some(PieceType::GRASSHOPPER)
    } else if game_state.spider.get(color) & b > 0 {
        Some(PieceType::SPIDER)
    } else {
        None
    }
}

/// The pin this action threatens, if any: the mover's kind and the kind
/// of an enemy piece next to the destination whose removal would break
/// the hive apart.
pub fn get_pin_info(game_state: &GameState, action: Action) -> (r: Option<(PieceType, PieceType)>) {
    let (pt, to) = match action {
        Action::SkipMove => {
            return None;
        },
        Action::SetMove(pt, to) => (pt, to),
        Action::DragMove(pt, from, to) => (pt, to),
    };
    if to >= 128 {
        return None;
    }
    let enemy = game_state.color_to_move.swap();
    let occupied = game_state.occupied();
    let mut targets = get_neighbours(1u128 << (to as u128)) & game_state.occupied.get(enemy);
    let mut fuel: u32 = 0;
    while targets > 0 && fuel < 8
        invariant
            0 <= fuel <= 8,
        decreases 8 - fuel,
    {
        let cell = lowest_bit(targets);
        let bitc: u128 = 1u128 << (cell as u128);
        targets = targets & !bitc;
        if !can_be_removed(bitc, occupied) {
            match piece_kind_at(game_state, enemy, cell) {
                Some(pinned) => {
                    return Some((pt, pinned));
                },
                None => {},
            }
        }
        fuel = fuel + 1;
    }
    None
}

/// Hands the legal moves of one node out one by one, most promising
/// first, generating and scoring them lazily stage by stage.
pub struct MoveOrderer {
    pub stage: usize,
    stages: Vec<MoveOrderingStage>,
    al: ActionList,
    scores: Vec<i64>,
}

impl MoveOrderer {
    /// Whether the score list shadows the move list and an unstarted
    /// orderer holds no moves yet.
    pub closed spec fn wf(&self) -> bool {
        self.scores@.len() == self.al@.len() && self.stage <= self.stages@.len() && (self.stage
            == 0 ==> self.al@.len() == 0)
    }

    /// The moves not yet handed out.
    pub closed spec fn spec_pending(&self) -> Multiset<Action> {
        self.al@.to_multiset()
    }

    /// Whether the generation stage has already run.
    pub closed spec fn spec_generated(&self) -> bool {
        self.stage > 0
    }

    /// Whether the move list is empty.
    pub closed spec fn spec_no_moves(&self) -> bool {
        self.al@.len() == 0
    }

    /// An orderer that will walk the given stages, generating into
    /// `buffer`, whose backing store it reuses.
    pub fn with_stages(stages: Vec<MoveOrderingStage>, buffer: ActionList) -> (r: MoveOrderer)
        requires
            buffer@.len() == 0,
        ensures
            r.wf(),
            !r.spec_generated(),
    {
        MoveOrderer { stage: 0, stages, al: buffer, scores: Vec::new() }
    }

    /// Hands the move buffer back for reuse at this search depth.
    pub fn release(self) -> (r: ActionList) {
        self.al
    }

    /// Removes the move at `i` and its score.
    fn take_at(&mut self, i: usize) -> (r: Action)
        requires
            old(self).wf(),
            i < old(self).al@.len(),
        ensures
            final(self).wf(),
            final(self).al@.len() == old(self).al@.len() - 1,
            final(self).stage == old(self).stage,
            final(self).stages == old(self).stages,
            old(self).spec_pending().contains(r),
            final(self).spec_pending() == old(self).spec_pending().remove(r),
    {
        let r = self.al.get(i);
        self.al.remove_index(i);
        let last = self.scores.len() - 1;
        let x = self.scores[last];
        self.scores[i] = x;
        self.scores.pop();
        proof {
            vstd::seq_lib::to_multiset_len(old(self).al@);
            vstd::seq_lib::to_multiset_len(final(self).al@);
            vstd::seq_lib::to_multiset_contains(old(self).al@, r);
        }
        r
    }

    /// The index of the highest-scored remaining move, if any is scored.
    fn highest_index(&self) -> (r: Option<usize>)
        requires
            self.wf(),
        ensures
            match r {
                Some(i) => i < self.al@.len(),
                None => true,
            },
    {
        let n = self.scores.len();
        let mut best: Option<usize> = None;
        let mut best_score: i64 = UNSCORED;
        let mut i: usize = 0;
        while i < n
            invariant
                0 <= i <= n == self.scores@.len(),
                self.wf(),
                match best {
                    Some(b) => b < self.al@.len(),
                    None => true,
                },
            decreases n - i,
        {
            if self.scores[i] > best_score || (best.is_none() && self.scores[i] > UNSCORED) {
                best = Some(i);
                best_score = self.scores[i];
            }
            i = i + 1;
        }
        best
    }

    /// The score at `i`.
    fn score_at(&self, i: usize) -> (r: i64)
        requires
            self.wf(),
            i < self.al@.len(),
    {
        self.scores[i]
    }

    /// The next move to try at this node, or `None` when every move has
    /// been handed out.
    pub fn next(
        &mut self,
        game_state: &GameState,
        killer0: Option<Action>,
        killer1: Option<Action>,
        hh: &Vec<u64>,
        bf: &Vec<u64>,
        pv_action: Option<Action>,
        tt_action: Option<Action>,
    ) -> (r: Option<Action>)
        requires
            old(self).wf(),
            game_state.ply < 250,
            hh@.len() == 32768,
            bf@.len() == 32768,
        ensures
            final(self).wf(),
            match r {
                Some(a) => {
                    &&& spec_handout_source(*old(self), *game_state).contains(a)
                    &&& final(self).spec_pending() == spec_handout_source(
                        *old(self),
                        *game_state,
                    ).remove(a)
                },
                None => true,
            },
    {
        let ghost source = spec_handout_source(*old(self), *game_state);
        loop
            invariant
                self.wf(),
                game_state.ply < 250,
                hh@.len() == 32768,
                bf@.len() == 32768,
                source == spec_handout_source(*old(self), *game_state),
                self.spec_generated() ==> (self.spec_pending() == source || self.spec_no_moves()),
                !self.spec_generated() ==> *self == *old(self),
            decreases self.stages@.len() - self.stage, self.al@.len(),
        {
            if self.stage >= self.stages.len() {
                return None;
            }
            let stage = self.stages[self.stage];
            match stage {
                MoveOrderingStage::GenerateMoves => {
                    let fresh = self.stage == 0;
                    self.stage = self.stage + 1;
                    if fresh {
                        calculate_legal_moves(game_state, &mut self.al);
                        proof {
                            assert(self.al@ == crate::gamerules::spec_legal_moves(*game_state));
                        }
                        let mut scores: Vec<i64> = Vec::new();
                        let n = self.al.size();
                        let mut i: usize = 0;
                        while i < n
                            invariant
                                0 <= i <= n,
                                scores@.len() == i,
                            decreases n - i,
                        {
                            scores.push(UNSCORED);
                            i = i + 1;
                        }
                        self.scores = scores;
                    }
                },
                MoveOrderingStage::PVMove => {
                    self.stage = self.stage + 1;
                    match pv_action {
                        Some(a) => {
                            match self.al.find_action(a) {
                                Some(i) => {
                                    return Some(self.take_at(i));
                                },
                                None => {},
                            }
                        },
                        None => {},
                    }
                },
                MoveOrderingStage::TTMove => {
                    self.stage = self.stage + 1;
                    match tt_action {
                        Some(a) => {
                            if pv_action != Some(a) {
                                match self.al.find_action(a) {
                                    Some(i) => {
                                        return Some(self.take_at(i));
                                    },
                                    None => {},
                                }
                            }
                        },
                        None => {},
                    }
                },
                MoveOrderingStage::PinInitialization => {
                    self.stage = self.stage + 1;
                    let ghost st = self.stage;
                    let ghost sts = self.stages@;
                    let ghost held = self.al@;
                    let n = self.al.size();
                    let mut i: usize = 0;
                    while i < n
                        invariant
                            0 <= i <= n == self.al@.len(),
                            self.wf(),
                            self.stage == st,
                            self.stages@ == sts,
                            self.al@ == held,
                            game_state.ply < 250,
                        decreases n - i,
                    {
                        match get_pin_info(game_state, self.al.get(i)) {
                            Some((pinner, pinned)) => {
                                let score = target_value(pinned) - attacker_value(pinner);
                                self.scores[i] = score;
                            },
                            None => {},
                        }
                        i = i + 1;
                    }
                },
                MoveOrderingStage::Pins | MoveOrderingStage::Quiet => {
                    match self.highest_index() {
                        Some(i) => {
                            if self.score_at(i) >= 0 {
                                return Some(self.take_at(i));
                            } else {
                                self.stage = self.stage + 1;
                            }
                        },
                        None => {
                            self.stage = self.stage + 1;
                        },
                    }
                },
                MoveOrderingStage::Killer => {
                    let n = self.al.size();
                    let mut found: Option<usize> = None;
                    let mut i: usize = 0;
                    while i < n
                        invariant
                            0 <= i <= n == self.al@.len(),
                            self.wf(),
                            match found {
                                Some(f) => f < self.al@.len(),
                                None => true,
                            },
                        decreases n - i,
                    {
                        let a = Some(self.al.get(i));
                        if a == killer0 || a == killer1 {
                            found = Some(i);
                            break ;
                        }
                        i = i + 1;
                    }
                    match found {
                        Some(i) => {
                            return Some(self.take_at(i));
                        },
                        None => {
                            self.stage = self.stage + 1;
                        },
                    }
                },
                MoveOrderingStage::QuietInitialization => {
                    self.stage = self.stage + 1;
                    let ghost st = self.stage;
                    let ghost sts = self.stages@;
                    let ghost held = self.al@;
                    let n = self.al.size();
                    let mut i: usize = 0;
                    while i < n
                        invariant
                            0 <= i <= n == self.al@.len(),
                            self.wf(),
                            self.stage == st,
                            self.stages@ == sts,
                            self.al@ == held,
                            game_state.ply < 250,
                            hh@.len() == 32768,
                            bf@.len() == 32768,
                        decreases n - i,
                    {
                        if self.scores[i] <= UNSCORED {
                            let (from, to) = from_to_of(self.al.get(i));
                            let idx = history_index(game_state.color_to_move, from, to);
                            let tried = bf[idx];
                            let score = if tried == 0 {
                                hh[idx] as i64
                            } else {
                                (hh[idx] / tried) as i64
                            };
                            self.scores[i] = score;
                        }
                        i = i + 1;
                    }
                },
                MoveOrderingStage::BadPins => {
                    match self.highest_index() {
                        Some(i) => {
                            return Some(self.take_at(i));
                        },
                        None => {
                            self.stage = self.stage + 1;
                        },
                    }
                },
            }
        }
    }
}

/// What a `next` call may hand out of: the remaining moves once
/// generation has run, else the legal moves of the node.
pub open spec fn spec_handout_source(o: MoveOrderer, s: GameState) -> Multiset<Action> {
    if o.spec_generated() {
        o.spec_pending()
    } else {
        crate::gamerules::spec_legal_moves(s).to_multiset()
    }
}

/// The from and to cells an action touches, with the off-board cell 121
/// standing for a placement's origin and for a skip.
pub fn from_to_of(action: Action) -> (r: (u8, u8))
    ensures
        r.0 <= 127,
        r.1 <= 127,
{
    match action {
        Action::SkipMove => (121, 121),
        Action::DragMove(_, from, to) => {
            (
                if from < 128 {
                    from
                } else {
                    121
                },
                if to < 128 {
                    to
                } else {
                    121
                },
            )
        },
        Action::SetMove(_, to) => (
            121,
            if to < 128 {
                to
            } else {
                121
            },
        ),
    }
}

/// The flat index of a (side, from, to) triple in the history tables.
pub fn history_index(color: Color, from: u8, to: u8) -> (r: usize)
    requires
        from < 128,
        to < 128,
    ensures
        r < 32768,
{
    color.index() * 16384 + (from as usize) * 128 + to as usize
}

} // verus!
