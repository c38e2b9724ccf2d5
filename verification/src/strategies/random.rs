//! Random: a fair coin.

use vstd::prelude::*;
use crate::chance::{cooperate_on, may_hit, move_for, UnitRatio};
use crate::params::ParamValue;
use crate::payoff::Move;
use crate::strategy::Strategy;
use crate::text::owned;

verus! {

/// Cooperates and defects with equal probability, whatever has been
/// played.
#[derive(Debug)]
pub struct RandomStrategy;

impl Strategy for RandomStrategy {
    open spec fn valid(&self) -> bool {
        true
    }

    /// The move is what one draw with a chance of 1 in 2 stands for:
    /// `Cooperate` for a hit, `Defect` for a miss. Either may come.
    open spec fn allows(
        pre: Self,
        own: Seq<Move>,
        opponent: Seq<Move>,
        post: Self,
        chosen: Move,
    ) -> bool {
        exists|hit: bool| #[trigger] may_hit(1, 2, hit) && chosen == move_for(hit)
    }

    open spec fn configures(
        pre: Self,
        params: ParamValue,
        post: Self,
        outcome: Result<(), String>,
    ) -> bool {
        outcome is Ok
    }

    open spec fn labelled(&self, text: Seq<char>) -> bool {
        text == "Random"@
    }

    fn next_move(&mut self, own_history: &[Move], opponent_history: &[Move]) -> (chosen: Move) {
        let coin = UnitRatio::new(1, 2).unwrap();
        let hit = coin.draw();
        proof {
            assert(may_hit(1, 2, hit));
        }
        cooperate_on(hit)
    }

    fn set_parameters(&mut self, params: &ParamValue) -> (outcome: Result<(), String>) {
        Ok(())
    }

    fn describe(&self) -> (label: String) {
        owned("Random")
    }
}

} // verus!
