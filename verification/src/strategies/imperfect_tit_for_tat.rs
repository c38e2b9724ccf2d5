//! Imperfect Tit For Tat: tit for tat that sometimes errs.

use vstd::prelude::*;
use crate::chance::{may_draw, UnitRatio};
use crate::history::{last_move, latest};
use crate::params::ParamValue;
use crate::payoff::Move;
use crate::strategy::{rejected_with, Strategy};
use crate::text::owned;

verus! {

/// Cooperates in the first round. Then it repeats the opponent's latest
/// move with the probability `imitate_probability` and plays the opposite
/// otherwise.
#[derive(Debug)]
pub struct ImperfectTitForTatStrategy {
    imitate_probability: UnitRatio,
}

/// The opponent's move when the imitation succeeds, its opposite when it
/// fails.
pub open spec fn imitation(last: Move, faithful: bool) -> Move {
    if faithful {
        last
    } else {
        last.opposite_spec()
    }
}

/// Turns the outcome of the draw into the answer to `last`.
pub fn imitate_on(last: Move, faithful: bool) -> (chosen: Move)
    ensures
        chosen == imitation(last, faithful),
{
    if faithful {
        last
    } else {
        last.opposite()
    }
}

impl ImperfectTitForTatStrategy {
    /// The probability of repeating the opponent's move.
    pub closed spec fn probability(&self) -> UnitRatio {
        self.imitate_probability
    }

    /// A fresh instance, with a probability of 9 in 10.
    pub fn new() -> (fresh: Self)
        ensures
            fresh.probability().numerator_spec() == 9,
            fresh.probability().denominator_spec() == 10,
    {
        Self { imitate_probability: UnitRatio::new(9, 10).unwrap() }
    }
}

impl Strategy for ImperfectTitForTatStrategy {
    open spec fn valid(&self) -> bool {
        true
    }

    open spec fn allows(
        pre: Self,
        own: Seq<Move>,
        opponent: Seq<Move>,
        post: Self,
        chosen: Move,
    ) -> bool {
        &&& post == pre
        &&& match latest(opponent) {
            Some(last) => exists|hit: bool| #[trigger]
                may_draw(pre.probability(), hit) && chosen == imitation(last, hit),
            None => chosen == Move::Cooperate,
        }
    }

    open spec fn configures(
        pre: Self,
        params: ParamValue,
        post: Self,
        outcome: Result<(), String>,
    ) -> bool {
        match params.ratio_under("imitate_probability"@) {
            Some((numerator, denominator)) => {
                &&& outcome is Ok
                &&& post.probability().numerator_spec() == numerator
                &&& post.probability().denominator_spec() == denominator
            },
            None => post == pre && rejected_with(
                outcome,
                "Invalid parameters. Expected 'imitate_probability' as a number between 0 and 1"@,
            ),
        }
    }

    open spec fn labelled(&self, text: Seq<char>) -> bool {
        text == "Imperfect Tit For Tat"@
    }

    fn next_move(&mut self, own_history: &[Move], opponent_history: &[Move]) -> (chosen: Move) {
        match last_move(opponent_history) {
            Some(last) => {
                let hit = self.imitate_probability.draw();
                proof {
                    assert(may_draw(self.probability(), hit));
                }
                imitate_on(last, hit)
            },
            None => Move::Cooperate,
        }
    }

    fn set_parameters(&mut self, params: &ParamValue) -> (outcome: Result<(), String>) {
        match params.get_unit_ratio("imitate_probability") {
            Some(ratio) => {
                self.imitate_probability = ratio;
                Ok(())
            },
            None => Err(
                owned("Invalid parameters. Expected 'imitate_probability' as a number between 0 and 1"),
            ),
        }
    }

    fn describe(&self) -> (label: String) {
        owned("Imperfect Tit For Tat")
    }
}

} // verus!
