//! Forgiving: answers a defection with one defection, then lets a number
//! of further defections pass.

use vstd::prelude::*;
use vstd::string::StringExecFns;
use crate::history::{last_move, latest};
use crate::params::ParamValue;
use crate::payoff::Move;
use crate::strategy::{rejected_with, Strategy};
use crate::text::{decimal, decimal_text, owned};

verus! {

/// Defects after a defection of the opponent and then cooperates through
/// the next `forgiveness_threshold` defections before it defects again. A
/// cooperation of the opponent clears the count.
#[derive(Debug)]
pub struct ForgivingStrategy {
    forgiveness_timer: u8,
    forgiveness_threshold: u8,
}

/// The timer after a decision and the move decided.
pub open spec fn forgiving_step(timer: u8, threshold: u8, opponent: Seq<Move>) -> (u8, Move) {
    match latest(opponent) {
        None => (timer, Move::Cooperate),
        Some(Move::Cooperate) => (0, Move::Cooperate),
        Some(Move::Defect) => if timer == 0 {
            (threshold, Move::Defect)
        } else {
            ((timer - 1) as u8, Move::Cooperate)
        },
    }
}

/// The threshold that a payload holds under `forgiveness_threshold`: a
/// whole number from 1 to 255.
pub open spec fn forgiveness_from(params: ParamValue) -> Option<u8> {
    match params.member("forgiveness_threshold"@) {
        Some(value) => match value.unsigned() {
            Some(n) => if 0 < n <= 255 {
                Some(n as u8)
            } else {
                None
            },
            None => None,
        },
        None => None,
    }
}

impl ForgivingStrategy {
    /// Defections that are still let pass.
    pub closed spec fn forgiveness_timer(&self) -> u8 {
        self.forgiveness_timer
    }

    /// Defections that are let pass after each retaliation.
    pub closed spec fn forgiveness_threshold(&self) -> u8 {
        self.forgiveness_threshold
    }

    /// A fresh instance with the given threshold.
    pub fn new(forgiveness_threshold: u8) -> (fresh: Self)
        ensures
            fresh.forgiveness_timer() == 0,
            fresh.forgiveness_threshold() == forgiveness_threshold,
    {
        ForgivingStrategy { forgiveness_timer: 0, forgiveness_threshold }
    }
}

impl Strategy for ForgivingStrategy {
    open spec fn valid(&self) -> bool {
        true
    }

    open spec fn allows(
        pre: Self,
        own: Seq<Move>,
        opponent: Seq<Move>,
        post: Self,
        chosen: Move,
    ) -> bool {
        &&& (post.forgiveness_timer(), chosen) == forgiving_step(
            pre.forgiveness_timer(),
            pre.forgiveness_threshold(),
            opponent,
        )
        &&& post.forgiveness_threshold() == pre.forgiveness_threshold()
    }

    open spec fn configures(
        pre: Self,
        params: ParamValue,
        post: Self,
        outcome: Result<(), String>,
    ) -> bool {
        match forgiveness_from(params) {
            Some(threshold) => outcome is Ok && post.forgiveness_threshold() == threshold
                && post.forgiveness_timer() == pre.forgiveness_timer(),
            None => post == pre && rejected_with(
                outcome,
                "Invalid parameters. Expected 'forgiveness_threshold' as a positive integer between 1 and 255"@,
            ),
        }
    }

    open spec fn labelled(&self, text: Seq<char>) -> bool {
        text == "Forgiving (forgives after "@ + decimal(self.forgiveness_threshold() as nat) + " rounds)"@
    }

    fn next_move(&mut self, own_history: &[Move], opponent_history: &[Move]) -> (chosen: Move) {
        match last_move(opponent_history) {
            None => Move::Cooperate,
            Some(Move::Defect) => {
                if self.forgiveness_timer == 0 {
                    self.forgiveness_timer = self.forgiveness_threshold;
                    Move::Defect
                } else {
                    self.forgiveness_timer -= 1;
                    Move::Cooperate
                }
            },
            Some(Move::Cooperate) => {
                self.forgiveness_timer = 0;
                Move::Cooperate
            },
        }
    }

    fn set_parameters(&mut self, params: &ParamValue) -> (outcome: Result<(), String>) {
        if let Some(value) = params.get("forgiveness_threshold") {
            if let Some(threshold) = value.as_u64() {
                if threshold > 0 && threshold <= 255 {
                    self.forgiveness_threshold = threshold as u8;
                    return Ok(());
                }
            }
        }
        Err(
            owned(
                "Invalid parameters. Expected 'forgiveness_threshold' as a positive integer between 1 and 255",
            ),
        )
    }

    fn describe(&self) -> (label: String) {
        let mut label = owned("Forgiving (forgives after ");
        let rounds = decimal_text(self.forgiveness_threshold as u64);
        label.append(rounds.as_str());
        label.append(" rounds)");
        label
    }
}

} // verus!
