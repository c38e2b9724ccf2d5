//! Tester: probes the opponent with an opening defection.

use vstd::prelude::*;
use crate::history::{mirror, mirrored};
use crate::params::ParamValue;
use crate::payoff::Move;
use crate::strategy::Strategy;
use crate::text::owned;

verus! {

/// Defects in its first decision and cooperates in its second. From the
/// third on it defects for good if the opponent's second move was a
/// defection, and plays tit for tat if not.
#[derive(Debug)]
pub struct TesterStrategy {
    turn: u8,
    opponent_defected: bool,
}

/// The state of a Tester instance as plain values.
pub struct TesterState {
    /// Decisions taken so far, counted up to three.
    pub turn: nat,
    /// Whether the opponent answered the probe with a defection.
    pub opponent_defected: bool,
}

/// The state after a decision and the move decided.
pub open spec fn tester_step(pre: TesterState, opponent: Seq<Move>) -> (TesterState, Move) {
    if pre.turn == 0 {
        (TesterState { turn: 1, ..pre }, Move::Defect)
    } else if pre.turn == 1 {
        (TesterState { turn: 2, ..pre }, Move::Cooperate)
    } else {
        let defected = pre.opponent_defected || (opponent.len() >= 2 && opponent[1]
            == Move::Defect);
        (
            TesterState { turn: 3, opponent_defected: defected },
            if defected {
                Move::Defect
            } else {
                mirrored(opponent, Move::Cooperate)
            },
        )
    }
}

impl View for TesterStrategy {
    type V = TesterState;

    closed spec fn view(&self) -> TesterState {
        TesterState { turn: self.turn as nat, opponent_defected: self.opponent_defected }
    }
}

impl TesterStrategy {
    /// The state of a fresh instance.
    pub open spec fn initial() -> TesterState {
        TesterState { turn: 0, opponent_defected: false }
    }

    /// A fresh instance.
    pub fn new() -> (fresh: Self)
        ensures
            fresh@ == Self::initial(),
            fresh.valid(),
    {
        Self { turn: 0, opponent_defected: false }
    }
}

impl Strategy for TesterStrategy {
    /// The count of decisions stops at three.
    open spec fn valid(&self) -> bool {
        self@.turn <= 3
    }

    open spec fn allows(
        pre: Self,
        own: Seq<Move>,
        opponent: Seq<Move>,
        post: Self,
        chosen: Move,
    ) -> bool {
        (post@, chosen) == tester_step(pre@, opponent)
    }

    open spec fn configures(
        pre: Self,
        params: ParamValue,
        post: Self,
        outcome: Result<(), String>,
    ) -> bool {
        outcome is Ok && post == pre
    }

    open spec fn labelled(&self, text: Seq<char>) -> bool {
        text == "Tester"@
    }

    fn next_move(&mut self, own_history: &[Move], opponent_history: &[Move]) -> (chosen: Move) {
        if self.turn < 3 {
            self.turn += 1;
        }
        if self.turn == 1 {
            Move::Defect
        } else if self.turn == 2 {
            Move::Cooperate
        } else {
            if opponent_history.len() >= 2 && opponent_history[1] == Move::Defect {
                self.opponent_defected = true;
            }
            if self.opponent_defected {
                Move::Defect
            } else {
                mirror(opponent_history, Move::Cooperate)
            }
        }
    }

    fn set_parameters(&mut self, params: &ParamValue) -> (outcome: Result<(), String>) {
        Ok(())
    }

    fn describe(&self) -> (label: String) {
        owned("Tester")
    }
}

} // verus!
