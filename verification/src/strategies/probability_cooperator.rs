//! Probability Cooperator: cooperates with a fixed, configurable probability.

use vstd::prelude::*;
use vstd::string::StringExecFns;
use crate::chance::{cooperate_on, may_draw, move_for, UnitRatio};
use crate::params::ParamValue;
use crate::payoff::Move;
use crate::strategy::{rejected_with, Strategy};
use crate::text::owned;

verus! {

/// Cooperates with the probability `cooperate_probability` and defects
/// otherwise, whatever has been played.
#[derive(Debug)]
pub struct ProbabilityCooperatorStrategy {
    cooperate_probability: UnitRatio,
}

impl ProbabilityCooperatorStrategy {
    /// The probability of a cooperation.
    pub closed spec fn probability(&self) -> UnitRatio {
        self.cooperate_probability
    }

    /// A fresh instance, with a probability of 1 in 2.
    pub fn new() -> (fresh: Self)
        ensures
            fresh.probability().numerator_spec() == 1,
            fresh.probability().denominator_spec() == 2,
    {
        Self { cooperate_probability: UnitRatio::new(1, 2).unwrap() }
    }
}

impl Strategy for ProbabilityCooperatorStrategy {
    open spec fn valid(&self) -> bool {
        true
    }

    open spec fn allows(
        pre: Self,
        own: Seq<Move>,
        opponent: Seq<Move>,
        post: Self,
        chosen: Move,
    ) -> bool {
        &&& post == pre
        &&& exists|hit: bool| #[trigger] may_draw(pre.probability(), hit) && chosen == move_for(hit)
    }

    open spec fn configures(
        pre: Self,
        params: ParamValue,
        post: Self,
        outcome: Result<(), String>,
    ) -> bool {
        match params.ratio_under("cooperate_probability"@) {
            Some((numerator, denominator)) => {
                &&& outcome is Ok
                &&& post.probability().numerator_spec() == numerator
                &&& post.probability().denominator_spec() == denominator
            },
            None => post == pre && rejected_with(
                outcome,
                "Invalid parameters. Expected 'cooperate_probability' as a number between 0 and 1"@,
            ),
        }
    }

    open spec fn labelled(&self, text: Seq<char>) -> bool {
        text == "Probability Cooperator (cooperate_probability: "@ + self.probability().notation() + ")"@
    }

    fn next_move(&mut self, own_history: &[Move], opponent_history: &[Move]) -> (chosen: Move) {
        let hit = self.cooperate_probability.draw();
        proof {
            assert(may_draw(self.probability(), hit));
        }
        cooperate_on(hit)
    }

    fn set_parameters(&mut self, params: &ParamValue) -> (outcome: Result<(), String>) {
        match params.get_unit_ratio("cooperate_probability") {
            Some(ratio) => {
                self.cooperate_probability = ratio;
                Ok(())
            },
            None => Err(
                owned("Invalid parameters. Expected 'cooperate_probability' as a number between 0 and 1"),
            ),
        }
    }

    fn describe(&self) -> (label: String) {
        let mut label = owned("Probability Cooperator (cooperate_probability: ");
        let ratio = self.cooperate_probability.to_text();
        label.append(ratio.as_str());
        label.append(")");
        label
    }
}

} // verus!
