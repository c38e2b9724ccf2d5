//! Gradual: retaliates for as many rounds as the opponent has defected.

use vstd::prelude::*;
use crate::history::{count_moves, count_of};
use crate::params::ParamValue;
use crate::payoff::Move;
use crate::strategy::Strategy;
use crate::text::owned;

verus! {

/// Alternates between one cooperation and a run of defections. Each time
/// it cooperates it sets the length of the next run to the number of
/// defections that the opponent has played so far.
#[derive(Debug)]
pub struct GradualStrategy {
    retaliation: usize,
    retaliation_count: usize,
}

/// The run length and the position in the run after a decision, and the
/// move decided, given how often the opponent has defected so far.
pub open spec fn gradual_course(retaliation: nat, retaliation_count: nat, defections: nat) -> (
    nat,
    nat,
    Move,
) {
    if retaliation_count < retaliation {
        (retaliation, retaliation_count + 1, Move::Defect)
    } else {
        (defections, 0, Move::Cooperate)
    }
}

impl GradualStrategy {
    /// Length of the current run of defections.
    pub closed spec fn retaliation(&self) -> nat {
        self.retaliation as nat
    }

    /// Defections already played in the current run.
    pub closed spec fn retaliation_count(&self) -> nat {
        self.retaliation_count as nat
    }

    /// A fresh instance, with nothing to retaliate.
    pub fn new() -> (fresh: Self)
        ensures
            fresh.retaliation() == 0,
            fresh.retaliation_count() == 0,
    {
        Self { retaliation: 0, retaliation_count: 0 }
    }
}

impl Strategy for GradualStrategy {
    open spec fn valid(&self) -> bool {
        true
    }

    open spec fn allows(
        pre: Self,
        own: Seq<Move>,
        opponent: Seq<Move>,
        post: Self,
        chosen: Move,
    ) -> bool {
        (post.retaliation(), post.retaliation_count(), chosen) == gradual_course(
            pre.retaliation(),
            pre.retaliation_count(),
            count_of(opponent, Move::Defect),
        )
    }

    open spec fn configures(
        pre: Self,
        params: ParamValue,
        post: Self,
        outcome: Result<(), String>,
    ) -> bool {
        outcome is Ok && post == pre
    }

    open spec fn labelled(&self, text: Seq<char>) -> bool {
        text == "Gradual"@
    }

    fn next_move(&mut self, own_history: &[Move], opponent_history: &[Move]) -> (chosen: Move) {
        let defections = count_moves(opponent_history, Move::Defect);
        if self.retaliation_count < self.retaliation {
            self.retaliation_count += 1;
            Move::Defect
        } else {
            self.retaliation = defections;
            self.retaliation_count = 0;
            Move::Cooperate
        }
    }

    fn set_parameters(&mut self, params: &ParamValue) -> (outcome: Result<(), String>) {
        Ok(())
    }

    fn describe(&self) -> (label: String) {
        owned("Gradual")
    }
}

} // verus!
