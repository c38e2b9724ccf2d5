//! Majority: cooperates while the opponent's share of cooperations is
//! above a configurable threshold.

use vstd::prelude::*;
use vstd::string::StringExecFns;
use crate::chance::UnitRatio;
use crate::history::{count_moves, count_of};
use crate::params::ParamValue;
use crate::payoff::Move;
use crate::strategy::{rejected_with, Strategy};
use crate::text::owned;

verus! {

/// Cooperates in the first round and whenever the share of cooperations
/// among the opponent's moves is greater than `cooperation_threshold`.
#[derive(Debug)]
pub struct MajorityStrategy {
    pub cooperation_threshold: UnitRatio,
}

impl MajorityStrategy {
    /// A fresh instance, with a threshold of one quarter.
    pub fn new() -> (fresh: Self)
        ensures
            fresh.cooperation_threshold.numerator_spec() == 1,
            fresh.cooperation_threshold.denominator_spec() == 4,
    {
        Self { cooperation_threshold: UnitRatio::new(1, 4).unwrap() }
    }

    /// The move for the coming round.
    pub open spec fn answer(&self, opponent: Seq<Move>) -> Move {
        if opponent.len() == 0 || self.cooperation_threshold.exceeded_by(
            count_of(opponent, Move::Cooperate),
            opponent.len(),
        ) {
            Move::Cooperate
        } else {
            Move::Defect
        }
    }
}

impl Strategy for MajorityStrategy {
    open spec fn valid(&self) -> bool {
        true
    }

    open spec fn allows(
        pre: Self,
        own: Seq<Move>,
        opponent: Seq<Move>,
        post: Self,
        chosen: Move,
    ) -> bool {
        post == pre && chosen == pre.answer(opponent)
    }

    open spec fn configures(
        pre: Self,
        params: ParamValue,
        post: Self,
        outcome: Result<(), String>,
    ) -> bool {
        match params.ratio_under("cooperation_threshold"@) {
            Some((numerator, denominator)) => {
                &&& outcome is Ok
                &&& post.cooperation_threshold.numerator_spec() == numerator
                &&& post.cooperation_threshold.denominator_spec() == denominator
            },
            None => post == pre && rejected_with(
                outcome,
                "Invalid parameters. Expected 'cooperation_threshold' as a number between 0 and 1"@,
            ),
        }
    }

    open spec fn labelled(&self, text: Seq<char>) -> bool {
        text == "Majority (cooperation_threshold: "@ + self.cooperation_threshold.notation() + ")"@
    }

    fn next_move(&mut self, own_history: &[Move], opponent_history: &[Move]) -> (chosen: Move) {
        let cooperations = count_moves(opponent_history, Move::Cooperate);
        let total = opponent_history.len();
        if total == 0 || self.cooperation_threshold.is_exceeded_by(cooperations, total) {
            Move::Cooperate
        } else {
            Move::Defect
        }
    }

    fn set_parameters(&mut self, params: &ParamValue) -> (outcome: Result<(), String>) {
        match params.get_unit_ratio("cooperation_threshold") {
            Some(ratio) => {
                self.cooperation_threshold = ratio;
                Ok(())
            },
            None => Err(
                owned(
                    "Invalid parameters. Expected 'cooperation_threshold' as a number between 0 and 1",
                ),
            ),
        }
    }

    fn describe(&self) -> (label: String) {
        let mut label = owned("Majority (cooperation_threshold: ");
        let ratio = self.cooperation_threshold.to_text();
        label.append(ratio.as_str());
        label.append(")");
        label
    }
}

} // verus!
