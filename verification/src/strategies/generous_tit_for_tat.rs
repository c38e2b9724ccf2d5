//! Generous Tit for Tat: tit for tat that forgives one defection in three.

use vstd::prelude::*;
use crate::chance::{cooperate_on, may_hit, move_for, UnitRatio};
use crate::history::{last_move, latest};
use crate::params::ParamValue;
use crate::payoff::{Move, PUNISHMENT, REWARD, SUCKER, TEMPTATION};
use crate::strategy::Strategy;
use crate::text::owned;

verus! {

/// Cooperates in the first round and after a cooperation of the opponent.
/// After a defection it still cooperates with a probability that follows
/// from the payoff matrix.
#[derive(Debug)]
pub struct GenerousTitForTatStrategy;

/// The probability of forgiving a defection, as numerator and
/// denominator: the smaller of `1 - (T - R) / (R - S)` and
/// `(R - P) / (T - P)`, where `T`, `R`, `P` and `S` are the payoffs of the
/// matrix.
pub open spec fn forgiveness() -> (nat, nat) {
    let first = ((2 * REWARD - SUCKER - TEMPTATION) as nat, (REWARD - SUCKER) as nat);
    let second = ((REWARD - PUNISHMENT) as nat, (TEMPTATION - PUNISHMENT) as nat);
    if first.0 * second.1 <= second.0 * first.1 {
        first
    } else {
        second
    }
}

/// With the payoffs of this library one defection in three is forgiven.
pub proof fn lemma_forgiveness_is_one_third()
    ensures
        forgiveness() == (1nat, 3nat),
{
    let first = ((2 * REWARD - SUCKER - TEMPTATION) as nat, (REWARD - SUCKER) as nat);
    let second = ((REWARD - PUNISHMENT) as nat, (TEMPTATION - PUNISHMENT) as nat);
    assert(first == (1nat, 3nat));
    assert(second == (2nat, 4nat));
    assert(first.0 * second.1 == 4) by (nonlinear_arith)
        requires
            first.0 == 1,
            second.1 == 4,
    ;
    assert(second.0 * first.1 == 6) by (nonlinear_arith)
        requires
            second.0 == 2,
            first.1 == 3,
    ;
}

impl GenerousTitForTatStrategy {
    /// The probability of forgiving a defection, which is one third.
    fn cooperation_probability() -> (probability: UnitRatio)
        ensures
            probability.numerator_spec() == forgiveness().0,
            probability.denominator_spec() == forgiveness().1,
            probability.numerator_spec() == 1,
            probability.denominator_spec() == 3,
    {
        proof {
            lemma_forgiveness_is_one_third();
        }
        let first_above = (2 * REWARD - SUCKER - TEMPTATION) as u32;
        let first_below = (REWARD - SUCKER) as u32;
        let second_above = (REWARD - PUNISHMENT) as u32;
        let second_below = (TEMPTATION - PUNISHMENT) as u32;
        if first_above * second_below <= second_above * first_below {
            UnitRatio::new(first_above, first_below).unwrap()
        } else {
            UnitRatio::new(second_above, second_below).unwrap()
        }
    }
}

impl Strategy for GenerousTitForTatStrategy {
    open spec fn valid(&self) -> bool {
        true
    }

    /// Before the first round and after a cooperation of the opponent it
    /// cooperates. After a defection the move is what one draw with the
    /// probability `forgiveness()` stands for: `Cooperate` for a hit,
    /// `Defect` for a miss.
    open spec fn allows(
        pre: Self,
        own: Seq<Move>,
        opponent: Seq<Move>,
        post: Self,
        chosen: Move,
    ) -> bool {
        match latest(opponent) {
            Some(Move::Defect) => exists|hit: bool| #[trigger]
                may_hit(forgiveness().0, forgiveness().1, hit) && chosen == move_for(hit),
            _ => chosen == Move::Cooperate,
        }
    }

    open spec fn configures(
        pre: Self,
        params: ParamValue,
        post: Self,
        outcome: Result<(), String>,
    ) -> bool {
        outcome is Ok
    }

    open spec fn labelled(&self, text: Seq<char>) -> bool {
        text == "Generous Tit for Tat (probability: 0.333)"@
    }

    fn next_move(&mut self, own_history: &[Move], opponent_history: &[Move]) -> (chosen: Move) {
        match last_move(opponent_history) {
            Some(Move::Defect) => {
                let hit = Self::cooperation_probability().draw();
                proof {
                    assert(may_hit(forgiveness().0, forgiveness().1, hit));
                }
                cooperate_on(hit)
            },
            _ => Move::Cooperate,
        }
    }

    fn set_parameters(&mut self, params: &ParamValue) -> (outcome: Result<(), String>) {
        Ok(())
    }

    fn describe(&self) -> (label: String) {
        owned("Generous Tit for Tat (probability: 0.333)")
    }
}

} // verus!
