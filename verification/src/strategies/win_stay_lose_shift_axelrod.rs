//! Win-Stay, Lose-Shift in Axelrod's original version.

use vstd::prelude::*;
use crate::params::ParamValue;
use crate::payoff::Move;
use crate::strategy::Strategy;
use crate::text::owned;

verus! {

/// Cooperates first. Then it stays with its latest move after the
/// opponent cooperated and switches after the opponent defected.
#[derive(Debug)]
pub struct WinStayLoseShiftStrategyAxelrod;

/// `Cooperate` before the first round; then the own latest move if the
/// opponent cooperated, and its opposite if the opponent defected.
pub open spec fn pavlov_axelrod(own: Seq<Move>, opponent: Seq<Move>) -> Move
    recommends
        own.len() == opponent.len(),
{
    if own.len() == 0 {
        Move::Cooperate
    } else if opponent.last() == Move::Cooperate {
        own.last()
    } else {
        own.last().opposite_spec()
    }
}

impl Strategy for WinStayLoseShiftStrategyAxelrod {
    open spec fn valid(&self) -> bool {
        true
    }

    open spec fn allows(
        pre: Self,
        own: Seq<Move>,
        opponent: Seq<Move>,
        post: Self,
        chosen: Move,
    ) -> bool {
        chosen == pavlov_axelrod(own, opponent)
    }

    open spec fn configures(
        pre: Self,
        params: ParamValue,
        post: Self,
        outcome: Result<(), String>,
    ) -> bool {
        outcome is Ok
    }

    open spec fn labelled(&self, text: Seq<char>) -> bool {
        text == "Win-Stay, Lose-Shift (Pavlov). Axelrod's original version"@
    }

    fn next_move(&mut self, own_history: &[Move], opponent_history: &[Move]) -> (chosen: Move) {
        let n = own_history.len();
        if n == 0 {
            return Move::Cooperate;
        }
        match (own_history[n - 1], opponent_history[n - 1]) {
            (Move::Cooperate, Move::Cooperate) => Move::Cooperate,
            (Move::Defect, Move::Cooperate) => Move::Defect,
            (Move::Cooperate, Move::Defect) => Move::Defect,
            (Move::Defect, Move::Defect) => Move::Cooperate,
        }
    }

    fn set_parameters(&mut self, params: &ParamValue) -> (outcome: Result<(), String>) {
        Ok(())
    }

    fn describe(&self) -> (label: String) {
        owned("Win-Stay, Lose-Shift (Pavlov). Axelrod's original version")
    }
}

} // verus!
