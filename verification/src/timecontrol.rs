//! The search time budget: either unlimited or a fixed number of
//! milliseconds per move.
use vstd::prelude::*;

verus! {

#[derive(Copy, Clone, PartialEq, Eq, Structural, Debug)]
pub enum Timecontrol {
    Infinite,
    MoveTime(u64),
}

impl Timecontrol {
    /// Whether `elapsed` milliseconds exhaust this budget.
    pub open spec fn spec_time_over(self, elapsed: u64) -> bool {
        match self {
            Timecontrol::Infinite => false,
            Timecontrol::MoveTime(movetime) => elapsed >= movetime,
        }
    }

    pub fn time_over(&self, elapsed: u64) -> (r: bool)
        ensures
            r == self.spec_time_over(elapsed),
    {
        match self {
            Timecontrol::Infinite => false,
            Timecontrol::MoveTime(movetime) => elapsed >= *movetime,
        }
    }

    /// Milliseconds left after `elapsed`, negative once overdrawn; an
    /// unlimited budget reports a fixed comfortable margin.
    pub fn time_left(&self, elapsed: u64) -> (r: i64)
        requires
            elapsed < 0x8000000000000000,
            self matches Timecontrol::MoveTime(m) ==> m < 0x8000000000000000,
        ensures
            match *self {
                Timecontrol::Infinite => r == 2000,
                Timecontrol::MoveTime(movetime) => r == movetime - elapsed,
            },
    {
        match self {
            Timecontrol::Infinite => 2000,
            Timecontrol::MoveTime(movetime) => *movetime as i64 - elapsed as i64,
        }
    }
}

} // verus!
