//! Stochastic Tit for Tat: tit for tat that sometimes defects out of turn.

use vstd::prelude::*;
use vstd::string::StringExecFns;
use crate::chance::{may_draw, UnitRatio};
use crate::history::{last_move, latest};
use crate::params::ParamValue;
use crate::payoff::Move;
use crate::strategy::{rejected_with, Strategy};
use crate::text::owned;

verus! {

/// Cooperates in the first round. Then it defects with the probability
/// `defection_chance` and repeats the opponent's latest move otherwise.
#[derive(Debug)]
pub struct StochasticTitForTatStrategy {
    defection_chance: UnitRatio,
}

/// A defection when the draw hits, the opponent's move when it misses.
pub open spec fn disturbed(last: Move, hit: bool) -> Move {
    if hit {
        Move::Defect
    } else {
        last
    }
}

/// Turns the outcome of the draw into the answer to `last`.
pub fn defect_on(last: Move, hit: bool) -> (chosen: Move)
    ensures
        chosen == disturbed(last, hit),
{
    if hit {
        Move::Defect
    } else {
        last
    }
}

impl StochasticTitForTatStrategy {
    /// The probability of a defection out of turn.
    pub closed spec fn probability(&self) -> UnitRatio {
        self.defection_chance
    }

    /// A fresh instance, with a probability of 1 in 10.
    pub fn new() -> (fresh: Self)
        ensures
            fresh.probability().numerator_spec() == 1,
            fresh.probability().denominator_spec() == 10,
    {
        Self { defection_chance: UnitRatio::new(1, 10).unwrap() }
    }
}

impl Strategy for StochasticTitForTatStrategy {
    open spec fn valid(&self) -> bool {
        true
    }

    open spec fn allows(
        pre: Self,
        own: Seq<Move>,
        opponent: Seq<Move>,
        post: Self,
        chosen: Move,
    ) -> bool {
        &&& post == pre
        &&& match latest(opponent) {
            Some(last) => exists|hit: bool| #[trigger]
                may_draw(pre.probability(), hit) && chosen == disturbed(last, hit),
            None => chosen == Move::Cooperate,
        }
    }

    open spec fn configures(
        pre: Self,
        params: ParamValue,
        post: Self,
        outcome: Result<(), String>,
    ) -> bool {
        match params.ratio_under("defection_chance"@) {
            Some((numerator, denominator)) => {
                &&& outcome is Ok
                &&& post.probability().numerator_spec() == numerator
                &&& post.probability().denominator_spec() == denominator
            },
            None => post == pre && rejected_with(
                outcome,
                "Invalid parameters. Expected 'defection_chance' as a number between 0 and 1"@,
            ),
        }
    }

    open spec fn labelled(&self, text: Seq<char>) -> bool {
        text == "Stochastic Tit for Tat (defection_chance: "@ + self.probability().notation() + ")"@
    }

    fn next_move(&mut self, own_history: &[Move], opponent_history: &[Move]) -> (chosen: Move) {
        match last_move(opponent_history) {
            Some(last) => {
                let hit = self.defection_chance.draw();
                proof {
                    assert(may_draw(self.probability(), hit));
                }
                defect_on(last, hit)
            },
            None => Move::Cooperate,
        }
    }

    fn set_parameters(&mut self, params: &ParamValue) -> (outcome: Result<(), String>) {
        match params.get_unit_ratio("defection_chance") {
            Some(ratio) => {
                self.defection_chance = ratio;
                Ok(())
            },
            None => Err(
                owned("Invalid parameters. Expected 'defection_chance' as a number between 0 and 1"),
            ),
        }
    }

    fn describe(&self) -> (label: String) {
        let mut label = owned("Stochastic Tit for Tat (defection_chance: ");
        let ratio = self.defection_chance.to_text();
        label.append(ratio.as_str());
        label.append(")");
        label
    }
}

} // verus!
