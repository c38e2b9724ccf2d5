//! Reverse Tit for Tat: opens with a defection, then does the opposite of the opponent.

use vstd::prelude::*;
use crate::history::{last_move, latest};
use crate::params::ParamValue;
use crate::payoff::Move;
use crate::strategy::Strategy;
use crate::text::owned;

verus! {

/// Defects in the first round and then plays the opposite of the
/// opponent's latest move.
#[derive(Debug)]
pub struct ReverseTitForTatStrategy;

/// The opposite of the opponent's latest move, and `Defect` before the
/// first round.
pub open spec fn reversed(opponent: Seq<Move>) -> Move {
    match latest(opponent) {
        Some(last) => last.opposite_spec(),
        None => Move::Defect,
    }
}

impl Strategy for ReverseTitForTatStrategy {
    open spec fn valid(&self) -> bool {
        true
    }

    open spec fn allows(
        pre: Self,
        own: Seq<Move>,
        opponent: Seq<Move>,
        post: Self,
        chosen: Move,
    ) -> bool {
        chosen == reversed(opponent)
    }

    open spec fn configures(
        pre: Self,
        params: ParamValue,
        post: Self,
        outcome: Result<(), String>,
    ) -> bool {
        outcome is Ok
    }

    open spec fn labelled(&self, text: Seq<char>) -> bool {
        text == "Reverse Tit for Tat"@
    }

    fn next_move(&mut self, own_history: &[Move], opponent_history: &[Move]) -> (chosen: Move) {
        match last_move(opponent_history) {
            Some(last) => last.opposite(),
            None => Move::Defect,
        }
    }

    fn set_parameters(&mut self, params: &ParamValue) -> (outcome: Result<(), String>) {
        Ok(())
    }

    fn describe(&self) -> (label: String) {
        owned("Reverse Tit for Tat")
    }
}

} // verus!
