//! Grim Trigger: cooperates until the opponent defects once.

use vstd::prelude::*;
use crate::history::{count_moves, lemma_count_positive_iff_contains};
use crate::params::ParamValue;
use crate::payoff::Move;
use crate::strategy::Strategy;
use crate::text::owned;

verus! {

/// Cooperates as long as the opponent has never defected, and defects for
/// good once it has seen a defection.
#[derive(Debug)]
pub struct GrimTriggerStrategy {
    triggered: bool,
}

impl GrimTriggerStrategy {
    /// Whether a defection of the opponent has been seen.
    pub closed spec fn triggered(&self) -> bool {
        self.triggered
    }

    /// A fresh instance, not triggered.
    pub fn new() -> (fresh: Self)
        ensures
            !fresh.triggered(),
    {
        GrimTriggerStrategy { triggered: false }
    }
}

impl Strategy for GrimTriggerStrategy {
    open spec fn valid(&self) -> bool {
        true
    }

    open spec fn allows(
        pre: Self,
        own: Seq<Move>,
        opponent: Seq<Move>,
        post: Self,
        chosen: Move,
    ) -> bool {
        &&& post.triggered() == (pre.triggered() || opponent.contains(Move::Defect))
        &&& chosen == if post.triggered() {
            Move::Defect
        } else {
            Move::Cooperate
        }
    }

    open spec fn configures(
        pre: Self,
        params: ParamValue,
        post: Self,
        outcome: Result<(), String>,
    ) -> bool {
        outcome is Ok && post == pre
    }

    open spec fn labelled(&self, text: Seq<char>) -> bool {
        text == "Grim Trigger"@
    }

    fn next_move(&mut self, own_history: &[Move], opponent_history: &[Move]) -> (chosen: Move) {
        proof {
            lemma_count_positive_iff_contains(opponent_history@, Move::Defect);
        }
        if count_moves(opponent_history, Move::Defect) > 0 {
            self.triggered = true;
        }
        if self.triggered {
            Move::Defect
        } else {
            Move::Cooperate
        }
    }

    fn set_parameters(&mut self, params: &ParamValue) -> (outcome: Result<(), String>) {
        Ok(())
    }

    fn describe(&self) -> (label: String) {
        owned("Grim Trigger")
    }
}

/// Once triggered, the strategy defects whatever the histories hold, and
/// stays triggered: it never returns to cooperation.
pub proof fn lemma_grim_trigger_never_forgives(
    pre: GrimTriggerStrategy,
    own: Seq<Move>,
    opponent: Seq<Move>,
    post: GrimTriggerStrategy,
    chosen: Move,
)
    requires
        pre.triggered(),
        GrimTriggerStrategy::allows(pre, own, opponent, post, chosen),
    ensures
        post.triggered(),
        chosen == Move::Defect,
{
}

/// A defection anywhere in the opponent's history triggers the strategy,
/// however the opponent has played since.
pub proof fn lemma_grim_trigger_fires(
    pre: GrimTriggerStrategy,
    own: Seq<Move>,
    opponent: Seq<Move>,
    post: GrimTriggerStrategy,
    chosen: Move,
)
    requires
        opponent.contains(Move::Defect),
        GrimTriggerStrategy::allows(pre, own, opponent, post, chosen),
    ensures
        post.triggered(),
        chosen == Move::Defect,
{
}

} // verus!
