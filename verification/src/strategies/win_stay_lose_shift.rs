//! Win-Stay, Lose-Shift (Pavlov).

use vstd::prelude::*;
use crate::params::ParamValue;
use crate::payoff::Move;
use crate::strategy::Strategy;
use crate::text::owned;

verus! {

/// Cooperates first. Then it repeats its own latest move if the opponent
/// played the same, and switches if the opponent played the other.
#[derive(Debug)]
pub struct WinStayLoseShiftStrategy;

/// `Cooperate` before the first round; then the own latest move if both
/// played the same, and its opposite if not.
pub open spec fn pavlov(own: Seq<Move>, opponent: Seq<Move>) -> Move
    recommends
        own.len() == opponent.len(),
{
    if own.len() == 0 {
        Move::Cooperate
    } else if own.last() == opponent.last() {
        own.last()
    } else {
        own.last().opposite_spec()
    }
}

impl Strategy for WinStayLoseShiftStrategy {
    open spec fn valid(&self) -> bool {
        true
    }

    open spec fn allows(
        pre: Self,
        own: Seq<Move>,
        opponent: Seq<Move>,
        post: Self,
        chosen: Move,
    ) -> bool {
        chosen == pavlov(own, opponent)
    }

    open spec fn configures(
        pre: Self,
        params: ParamValue,
        post: Self,
        outcome: Result<(), String>,
    ) -> bool {
        outcome is Ok
    }

    open spec fn labelled(&self, text: Seq<char>) -> bool {
        text == "Win-Stay, Lose-Shift (Pavlov)"@
    }

    fn next_move(&mut self, own_history: &[Move], opponent_history: &[Move]) -> (chosen: Move) {
        let n = own_history.len();
        if n == 0 {
            return Move::Cooperate;
        }
        let last_own = own_history[n - 1];
        let last_opponent = opponent_history[n - 1];
        if last_own == last_opponent {
            last_own
        } else {
            last_own.opposite()
        }
    }

    fn set_parameters(&mut self, params: &ParamValue) -> (outcome: Result<(), String>) {
        Ok(())
    }

    fn describe(&self) -> (label: String) {
        owned("Win-Stay, Lose-Shift (Pavlov)")
    }
}

} // verus!
