//! Two Tits For Tat: answers each defection with two.

use vstd::prelude::*;
use crate::history::{last_move, latest};
use crate::params::ParamValue;
use crate::payoff::Move;
use crate::strategy::Strategy;
use crate::text::owned;

verus! {

/// Defects in the round after a defection of the opponent and in the
/// round after that; cooperates otherwise.
#[derive(Debug)]
pub struct TwoTitsForTatsStrategy {
    defect_countdown: u8,
}

/// The countdown after a decision and the move decided.
pub open spec fn two_tits_step(countdown: u8, opponent: Seq<Move>) -> (u8, Move) {
    if countdown > 0 {
        ((countdown - 1) as u8, Move::Defect)
    } else if latest(opponent) == Some(Move::Defect) {
        (1, Move::Defect)
    } else {
        (0, Move::Cooperate)
    }
}

impl TwoTitsForTatsStrategy {
    /// Defections that are still owed.
    pub closed spec fn defect_countdown(&self) -> u8 {
        self.defect_countdown
    }

    /// A fresh instance, owing nothing.
    pub fn new() -> (fresh: Self)
        ensures
            fresh.defect_countdown() == 0,
    {
        Self { defect_countdown: 0 }
    }
}

impl Strategy for TwoTitsForTatsStrategy {
    open spec fn valid(&self) -> bool {
        true
    }

    open spec fn allows(
        pre: Self,
        own: Seq<Move>,
        opponent: Seq<Move>,
        post: Self,
        chosen: Move,
    ) -> bool {
        (post.defect_countdown(), chosen) == two_tits_step(pre.defect_countdown(), opponent)
    }

    open spec fn configures(
        pre: Self,
        params: ParamValue,
        post: Self,
        outcome: Result<(), String>,
    ) -> bool {
        outcome is Ok && post == pre
    }

    open spec fn labelled(&self, text: Seq<char>) -> bool {
        text == "Two Tit For Tats"@
    }

    fn next_move(&mut self, own_history: &[Move], opponent_history: &[Move]) -> (chosen: Move) {
        if self.defect_countdown > 0 {
            self.defect_countdown -= 1;
            return Move::Defect;
        }
        match last_move(opponent_history) {
            Some(Move::Defect) => {
                self.defect_countdown = 1;
                Move::Defect
            },
            _ => Move::Cooperate,
        }
    }

    fn set_parameters(&mut self, params: &ParamValue) -> (outcome: Result<(), String>) {
        Ok(())
    }

    fn describe(&self) -> (label: String) {
        owned("Two Tit For Tats")
    }
}

} // verus!
