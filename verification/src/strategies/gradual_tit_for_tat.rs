//! Gradual Tit For Tat: punishes as often as it was defected against, then
//! apologises with two cooperations.

use vstd::prelude::*;
use crate::history::{count_moves, count_of};
use crate::params::ParamValue;
use crate::payoff::Move;
use crate::strategy::Strategy;
use crate::text::owned;

verus! {

/// Retaliates with one defection for each defection of the opponent that
/// it has not answered yet, then cooperates twice before it looks again.
#[derive(Debug)]
pub struct GradualTitForTatStrategy {
    retaliation: usize,
    retaliation_count: usize,
    apology_count: usize,
    last_opponent_defections: usize,
}

/// The state of a Gradual Tit For Tat instance as plain values.
pub struct GradualState {
    /// Length of the current run of retaliation.
    pub retaliation: nat,
    /// Defections already played in that run.
    pub retaliation_count: nat,
    /// Cooperations still owed as an apology.
    pub apology_count: nat,
    /// Defections of the opponent that have been accounted for.
    pub last_opponent_defections: nat,
}

/// The state after a decision and the move decided, given how often the
/// opponent has defected so far.
pub open spec fn gradual_step(pre: GradualState, defections: nat) -> (GradualState, Move) {
    if pre.apology_count > 0 {
        (GradualState { apology_count: (pre.apology_count - 1) as nat, ..pre }, Move::Cooperate)
    } else if pre.retaliation_count < pre.retaliation {
        (
            GradualState {
                retaliation_count: pre.retaliation_count + 1,
                apology_count: if pre.retaliation_count + 1 == pre.retaliation {
                    2
                } else {
                    pre.apology_count
                },
                ..pre
            },
            Move::Defect,
        )
    } else if defections > pre.last_opponent_defections {
        let run = (pre.retaliation + defections - pre.last_opponent_defections) as nat;
        (
            GradualState {
                retaliation: run,
                retaliation_count: 1,
                apology_count: if run == 1 {
                    2
                } else {
                    pre.apology_count
                },
                last_opponent_defections: defections,
            },
            Move::Defect,
        )
    } else {
        (GradualState { retaliation: 0, retaliation_count: 0, ..pre }, Move::Cooperate)
    }
}

impl View for GradualTitForTatStrategy {
    type V = GradualState;

    closed spec fn view(&self) -> GradualState {
        GradualState {
            retaliation: self.retaliation as nat,
            retaliation_count: self.retaliation_count as nat,
            apology_count: self.apology_count as nat,
            last_opponent_defections: self.last_opponent_defections as nat,
        }
    }
}

impl GradualTitForTatStrategy {
    /// The state of a fresh instance: nothing to retaliate, nothing owed.
    pub open spec fn initial() -> GradualState {
        GradualState {
            retaliation: 0,
            retaliation_count: 0,
            apology_count: 0,
            last_opponent_defections: 0,
        }
    }

    /// A fresh instance.
    pub fn new() -> (fresh: Self)
        ensures
            fresh@ == Self::initial(),
            fresh.valid(),
    {
        GradualTitForTatStrategy {
            retaliation: 0,
            retaliation_count: 0,
            apology_count: 0,
            last_opponent_defections: 0,
        }
    }
}

impl Strategy for GradualTitForTatStrategy {
    /// A run of retaliation is never longer than the defections accounted
    /// for, and never overrun.
    open spec fn valid(&self) -> bool {
        self@.retaliation <= self@.last_opponent_defections && self@.retaliation_count
            <= self@.retaliation
    }

    open spec fn allows(
        pre: Self,
        own: Seq<Move>,
        opponent: Seq<Move>,
        post: Self,
        chosen: Move,
    ) -> bool {
        (post@, chosen) == gradual_step(pre@, count_of(opponent, Move::Defect))
    }

    open spec fn configures(
        pre: Self,
        params: ParamValue,
        post: Self,
        outcome: Result<(), String>,
    ) -> bool {
        outcome is Ok && post == pre
    }

    open spec fn labelled(&self, text: Seq<char>) -> bool {
        text == "Gradual Tit For Tat"@
    }

    fn next_move(&mut self, own_history: &[Move], opponent_history: &[Move]) -> (chosen: Move) {
        let defections = count_moves(opponent_history, Move::Defect);
        if self.apology_count > 0 {
            self.apology_count -= 1;
            return Move::Cooperate;
        }
        if self.retaliation_count < self.retaliation {
            self.retaliation_count += 1;
            if self.retaliation_count == self.retaliation {
                self.apology_count = 2;
            }
            return Move::Defect;
        }
        if defections > self.last_opponent_defections {
            let new_defections = defections - self.last_opponent_defections;
            self.retaliation = self.retaliation + new_defections;
            self.last_opponent_defections = defections;
            self.retaliation_count = 1;
            if self.retaliation_count == self.retaliation {
                self.apology_count = 2;
            }
            return Move::Defect;
        }
        self.retaliation = 0;
        self.retaliation_count = 0;
        Move::Cooperate
    }

    fn set_parameters(&mut self, params: &ParamValue) -> (outcome: Result<(), String>) {
        Ok(())
    }

    fn describe(&self) -> (label: String) {
        owned("Gradual Tit For Tat")
    }
}

} // verus!
