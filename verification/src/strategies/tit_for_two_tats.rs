//! Tit for Two Tats: defects only after two defections in a row.

use vstd::prelude::*;
use crate::params::ParamValue;
use crate::payoff::Move;
use crate::strategy::Strategy;
use crate::text::owned;

verus! {

/// Defects when more than two rounds have been played and the opponent
/// defected in both of the last two; cooperates otherwise.
#[derive(Debug)]
pub struct TitForTwoTatsStrategy;

/// `Defect` when the history is longer than two rounds and ends in two
/// defections, `Cooperate` otherwise.
pub open spec fn twice_provoked(opponent: Seq<Move>) -> Move {
    let n = opponent.len() as int;
    if n > 2 && opponent[n - 1] == Move::Defect && opponent[n - 2] == Move::Defect {
        Move::Defect
    } else {
        Move::Cooperate
    }
}

impl Strategy for TitForTwoTatsStrategy {
    open spec fn valid(&self) -> bool {
        true
    }

    open spec fn allows(
        pre: Self,
        own: Seq<Move>,
        opponent: Seq<Move>,
        post: Self,
        chosen: Move,
    ) -> bool {
        chosen == twice_provoked(opponent)
    }

    open spec fn configures(
        pre: Self,
        params: ParamValue,
        post: Self,
        outcome: Result<(), String>,
    ) -> bool {
        outcome is Ok
    }

    open spec fn labelled(&self, text: Seq<char>) -> bool {
        text == "Tit for 2 Tats"@
    }

    fn next_move(&mut self, own_history: &[Move], opponent_history: &[Move]) -> (chosen: Move) {
        let len = opponent_history.len();
        if len > 2 && opponent_history[len - 1] == Move::Defect && opponent_history[len - 2]
            == Move::Defect {
            Move::Defect
        } else {
            Move::Cooperate
        }
    }

    fn set_parameters(&mut self, params: &ParamValue) -> (outcome: Result<(), String>) {
        Ok(())
    }

    fn describe(&self) -> (label: String) {
        owned("Tit for 2 Tats")
    }
}

} // verus!
