//! Configurable Generous Tit for Tat: tit for tat that sometimes forgives.

use vstd::prelude::*;
use vstd::string::StringExecFns;
use crate::chance::{cooperate_on, may_draw, move_for, UnitRatio};
use crate::history::{last_move, latest};
use crate::params::ParamValue;
use crate::payoff::Move;
use crate::strategy::{rejected_with, Strategy};
use crate::text::owned;

verus! {

/// Cooperates in the first round and after a cooperation of the opponent.
/// After a defection it still cooperates with the probability
/// `cooperation_probability`.
#[derive(Debug)]
pub struct ConfigurableGenerousTitForTatStrategy {
    pub cooperation_probability: UnitRatio,
}

impl ConfigurableGenerousTitForTatStrategy {
    /// The probability of a cooperation after a defection.
    pub closed spec fn probability(&self) -> UnitRatio {
        self.cooperation_probability
    }

    /// A fresh instance, with a probability of 1 in 10.
    pub fn new() -> (fresh: Self)
        ensures
            fresh.probability().numerator_spec() == 1,
            fresh.probability().denominator_spec() == 10,
    {
        Self { cooperation_probability: UnitRatio::new(1, 10).unwrap() }
    }
}

impl Strategy for ConfigurableGenerousTitForTatStrategy {
    open spec fn valid(&self) -> bool {
        true
    }

    open spec fn allows(
        pre: Self,
        own: Seq<Move>,
        opponent: Seq<Move>,
        post: Self,
        chosen: Move,
    ) -> bool {
        &&& post == pre
        &&& match latest(opponent) {
            Some(Move::Defect) => exists|hit: bool| #[trigger]
                may_draw(pre.probability(), hit) && chosen == move_for(hit),
            _ => chosen == Move::Cooperate,
        }
    }

    open spec fn configures(
        pre: Self,
        params: ParamValue,
        post: Self,
        outcome: Result<(), String>,
    ) -> bool {
        match params.ratio_under("cooperation_probability"@) {
            Some((numerator, denominator)) => {
                &&& outcome is Ok
                &&& post.probability().numerator_spec() == numerator
                &&& post.probability().denominator_spec() == denominator
            },
            None => post == pre && rejected_with(
                outcome,
                "Invalid parameters. Expected 'cooperation_probability' as a number between 0 and 1"@,
            ),
        }
    }

    open spec fn labelled(&self, text: Seq<char>) -> bool {
        text == "Configurable Generous Tit for Tat (cooperation_probability: "@ + self.probability().notation() + ")"@
    }

    fn next_move(&mut self, own_history: &[Move], opponent_history: &[Move]) -> (chosen: Move) {
        match last_move(opponent_history) {
            Some(Move::Defect) => {
                let hit = self.cooperation_probability.draw();
                proof {
                    assert(may_draw(self.probability(), hit));
                }
                cooperate_on(hit)
            },
            _ => Move::Cooperate,
        }
    }

    fn set_parameters(&mut self, params: &ParamValue) -> (outcome: Result<(), String>) {
        match params.get_unit_ratio("cooperation_probability") {
            Some(ratio) => {
                self.cooperation_probability = ratio;
                Ok(())
            },
            None => Err(
                owned("Invalid parameters. Expected 'cooperation_probability' as a number between 0 and 1"),
            ),
        }
    }

    fn describe(&self) -> (label: String) {
        let mut label = owned("Configurable Generous Tit for Tat (cooperation_probability: ");
        let ratio = self.cooperation_probability.to_text();
        label.append(ratio.as_str());
        label.append(")");
        label
    }
}

} // verus!
