//! Firm Majority: cooperates only with an opponent that has nearly always cooperated.

use vstd::prelude::*;
use crate::history::{count_moves, count_of};
use crate::params::ParamValue;
use crate::payoff::Move;
use crate::strategy::Strategy;
use crate::text::owned;

verus! {

/// Cooperates in the first round and whenever the opponent has cooperated
/// in more than three quarters of the rounds so far.
#[derive(Debug)]
pub struct FirmMajorityStrategy;

/// `Cooperate` before the first round and while more than three quarters
/// of the opponent's moves are cooperations.
pub open spec fn firm_majority(opponent: Seq<Move>) -> Move {
    if opponent.len() == 0 || 4 * count_of(opponent, Move::Cooperate) > 3 * opponent.len() {
        Move::Cooperate
    } else {
        Move::Defect
    }
}

impl Strategy for FirmMajorityStrategy {
    open spec fn valid(&self) -> bool {
        true
    }

    open spec fn allows(
        pre: Self,
        own: Seq<Move>,
        opponent: Seq<Move>,
        post: Self,
        chosen: Move,
    ) -> bool {
        chosen == firm_majority(opponent)
    }

    open spec fn configures(
        pre: Self,
        params: ParamValue,
        post: Self,
        outcome: Result<(), String>,
    ) -> bool {
        outcome is Ok
    }

    open spec fn labelled(&self, text: Seq<char>) -> bool {
        text == "Firm Majority"@
    }

    fn next_move(&mut self, own_history: &[Move], opponent_history: &[Move]) -> (chosen: Move) {
        let cooperations = count_moves(opponent_history, Move::Cooperate);
        let total = opponent_history.len();
        if total == 0 || 4 * (cooperations as u128) > 3 * (total as u128) {
            Move::Cooperate
        } else {
            Move::Defect
        }
    }

    fn set_parameters(&mut self, params: &ParamValue) -> (outcome: Result<(), String>) {
        Ok(())
    }

    fn describe(&self) -> (label: String) {
        owned("Firm Majority")
    }
}

} // verus!
