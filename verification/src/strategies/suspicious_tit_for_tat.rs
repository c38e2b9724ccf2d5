//! Suspicious Tit for Tat: opens with a defection, then repeats the opponent.

use vstd::prelude::*;
use crate::history::{mirror, mirrored};
use crate::params::ParamValue;
use crate::payoff::Move;
use crate::strategy::Strategy;
use crate::text::owned;

verus! {

/// Defects in the first round and then plays the opponent's latest move.
#[derive(Debug)]
pub struct SuspiciousTitForTatStrategy;

impl Strategy for SuspiciousTitForTatStrategy {
    open spec fn valid(&self) -> bool {
        true
    }

    open spec fn allows(
        pre: Self,
        own: Seq<Move>,
        opponent: Seq<Move>,
        post: Self,
        chosen: Move,
    ) -> bool {
        chosen == mirrored(opponent, Move::Defect)
    }

    open spec fn configures(
        pre: Self,
        params: ParamValue,
        post: Self,
        outcome: Result<(), String>,
    ) -> bool {
        outcome is Ok
    }

    open spec fn labelled(&self, text: Seq<char>) -> bool {
        text == "Suspicious Tit for Tat"@
    }

    fn next_move(&mut self, own_history: &[Move], opponent_history: &[Move]) -> (chosen: Move) {
        mirror(opponent_history, Move::Defect)
    }

    fn set_parameters(&mut self, params: &ParamValue) -> (outcome: Result<(), String>) {
        Ok(())
    }

    fn describe(&self) -> (label: String) {
        owned("Suspicious Tit for Tat")
    }
}

} // verus!
