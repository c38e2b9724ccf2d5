//! Always Defect.

use vstd::prelude::*;
use crate::params::ParamValue;
use crate::payoff::Move;
use crate::strategy::Strategy;
use crate::text::owned;

verus! {

/// Defects in every round.
#[derive(Debug)]
pub struct AlwaysDefectStrategy;

impl Strategy for AlwaysDefectStrategy {
    open spec fn valid(&self) -> bool {
        true
    }

    open spec fn allows(
        pre: Self,
        own: Seq<Move>,
        opponent: Seq<Move>,
        post: Self,
        chosen: Move,
    ) -> bool {
        chosen == Move::Defect
    }

    open spec fn configures(
        pre: Self,
        params: ParamValue,
        post: Self,
        outcome: Result<(), String>,
    ) -> bool {
        outcome is Ok
    }

    open spec fn labelled(&self, text: Seq<char>) -> bool {
        text == "Always Defect"@
    }

    fn next_move(&mut self, own_history: &[Move], opponent_history: &[Move]) -> (chosen: Move) {
        Move::Defect
    }

    fn set_parameters(&mut self, params: &ParamValue) -> (outcome: Result<(), String>) {
        Ok(())
    }

    fn describe(&self) -> (label: String) {
        owned("Always Defect")
    }
}

} // verus!
