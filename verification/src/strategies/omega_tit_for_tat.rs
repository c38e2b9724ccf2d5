//! Omega Tit For Tat: tit for tat that breaks deadlocks and gives up on
//! opponents that look random.

use vstd::prelude::*;
use crate::params::ParamValue;
use crate::payoff::Move;
use crate::strategy::Strategy;
use crate::text::owned;

verus! {

/// Plays tit for tat while it watches the last two rounds. A run of
/// mirrored alternation (a deadlock) as long as `deadlock_threshold` is
/// answered with one cooperation; a run of changes as long as
/// `randomness_threshold` makes it defect from then on.
#[derive(Debug)]
pub struct OmegaTitForTatStrategy {
    deadlock_threshold: u64,
    randomness_threshold: u64,
    deadlock_count: u64,
    randomness_count: u64,
    unconditional_defection: bool,
    params_set: bool,
}

/// The state of an Omega Tit For Tat instance as plain values.
pub struct OmegaState {
    pub deadlock_threshold: u64,
    pub randomness_threshold: u64,
    pub deadlock_count: u64,
    pub randomness_count: u64,
    pub unconditional_defection: bool,
    pub params_set: bool,
}

/// One more, but never past the largest value that the counter can hold.
pub open spec fn bumped(count: u64) -> u64 {
    if count < u64::MAX {
        (count + 1) as u64
    } else {
        count
    }
}

/// Both sides changed their move in the last round and each played what
/// the other had played the round before.
pub open spec fn deadlocked(own: Seq<Move>, opponent: Seq<Move>) -> bool
    recommends
        own.len() >= 2,
        opponent.len() == own.len(),
{
    let n = own.len() as int;
    own[n - 1] != own[n - 2] && opponent[n - 1] != opponent[n - 2] && own[n - 1] == opponent[n
        - 2] && own[n - 2] == opponent[n - 1]
}

/// At least one side changed its move in the last round.
pub open spec fn unsettled(own: Seq<Move>, opponent: Seq<Move>) -> bool
    recommends
        own.len() >= 2,
        opponent.len() == own.len(),
{
    let n = own.len() as int;
    own[n - 1] != own[n - 2] || opponent[n - 1] != opponent[n - 2]
}

/// The two counters after a look at the last two rounds: unchanged while
/// fewer than two rounds have been played.
pub open spec fn omega_observed(
    pre: OmegaState,
    own: Seq<Move>,
    opponent: Seq<Move>,
) -> OmegaState {
    if own.len() >= 2 {
        OmegaState {
            deadlock_count: if deadlocked(own, opponent) {
                bumped(pre.deadlock_count)
            } else {
                0
            },
            randomness_count: if unsettled(own, opponent) {
                bumped(pre.randomness_count)
            } else {
                0
            },
            ..pre
        }
    } else {
        pre
    }
}

/// The state after a decision and the move decided.
pub open spec fn omega_step(pre: OmegaState, own: Seq<Move>, opponent: Seq<Move>) -> (
    OmegaState,
    Move,
)
    recommends
        opponent.len() == own.len(),
{
    if pre.unconditional_defection {
        (pre, Move::Defect)
    } else if own.len() == 0 {
        (pre, Move::Cooperate)
    } else {
        let seen = omega_observed(pre, own, opponent);
        if seen.deadlock_count >= seen.deadlock_threshold {
            (OmegaState { deadlock_count: 0, ..seen }, Move::Cooperate)
        } else if seen.randomness_count >= seen.randomness_threshold {
            (OmegaState { unconditional_defection: true, ..seen }, Move::Defect)
        } else {
            (seen, opponent.last())
        }
    }
}

/// The threshold that a payload gives under `key`: a whole number there
/// replaces `current`, anything else keeps it.
pub open spec fn threshold_from(params: ParamValue, key: Seq<char>, current: u64) -> u64 {
    match params.member(key) {
        Some(value) => match value.unsigned() {
            Some(n) => n,
            None => current,
        },
        None => current,
    }
}

/// The state after a configuration, which never fails.
pub open spec fn omega_configured(pre: OmegaState, params: ParamValue) -> OmegaState {
    OmegaState {
        deadlock_threshold: threshold_from(params, "deadlock_threshold"@, pre.deadlock_threshold),
        randomness_threshold: threshold_from(
            params,
            "randomness_threshold"@,
            pre.randomness_threshold,
        ),
        params_set: true,
        ..pre
    }
}

fn read_threshold(params: &ParamValue, key: &str, current: u64) -> (threshold: u64)
    ensures
        threshold == threshold_from(*params, key@, current),
{
    match params.get(key) {
        Some(value) => match value.as_u64() {
            Some(n) => n,
            None => current,
        },
        None => current,
    }
}

impl View for OmegaTitForTatStrategy {
    type V = OmegaState;

    closed spec fn view(&self) -> OmegaState {
        OmegaState {
            deadlock_threshold: self.deadlock_threshold,
            randomness_threshold: self.randomness_threshold,
            deadlock_count: self.deadlock_count,
            randomness_count: self.randomness_count,
            unconditional_defection: self.unconditional_defection,
            params_set: self.params_set,
        }
    }
}

impl OmegaTitForTatStrategy {
    /// The state of a fresh instance: both thresholds are 3.
    pub open spec fn initial() -> OmegaState {
        OmegaState {
            deadlock_threshold: 3,
            randomness_threshold: 3,
            deadlock_count: 0,
            randomness_count: 0,
            unconditional_defection: false,
            params_set: false,
        }
    }

    /// A fresh instance.
    pub fn new() -> (fresh: Self)
        ensures
            fresh@ == Self::initial(),
    {
        OmegaTitForTatStrategy {
            deadlock_threshold: 3,
            randomness_threshold: 3,
            deadlock_count: 0,
            randomness_count: 0,
            unconditional_defection: false,
            params_set: false,
        }
    }
}

impl Strategy for OmegaTitForTatStrategy {
    open spec fn valid(&self) -> bool {
        true
    }

    open spec fn allows(
        pre: Self,
        own: Seq<Move>,
        opponent: Seq<Move>,
        post: Self,
        chosen: Move,
    ) -> bool {
        (post@, chosen) == omega_step(pre@, own, opponent)
    }

    open spec fn configures(
        pre: Self,
        params: ParamValue,
        post: Self,
        outcome: Result<(), String>,
    ) -> bool {
        outcome is Ok && post@ == omega_configured(pre@, params)
    }

    open spec fn labelled(&self, text: Seq<char>) -> bool {
        text == "Omega Tit For Tat Strategy"@
    }

    fn next_move(&mut self, own_history: &[Move], opponent_history: &[Move]) -> (chosen: Move) {
        if self.unconditional_defection {
            return Move::Defect;
        }
        let n = own_history.len();
        if n == 0 {
            return Move::Cooperate;
        }
        if n >= 2 {
            let my_last = own_history[n - 1];
            let my_prev = own_history[n - 2];
            let opp_last = opponent_history[n - 1];
            let opp_prev = opponent_history[n - 2];
            if my_last != my_prev && opp_last != opp_prev && my_last == opp_prev && my_prev
                == opp_last {
                self.deadlock_count = self.deadlock_count.saturating_add(1);
            } else {
                self.deadlock_count = 0;
            }
            if my_last != my_prev || opp_last != opp_prev {
                self.randomness_count = self.randomness_count.saturating_add(1);
            } else {
                self.randomness_count = 0;
            }
        }
        if self.deadlock_count >= self.deadlock_threshold {
            self.deadlock_count = 0;
            return Move::Cooperate;
        }
        if self.randomness_count >= self.randomness_threshold {
            self.unconditional_defection = true;
            return Move::Defect;
        }
        opponent_history[n - 1]
    }

    fn set_parameters(&mut self, params: &ParamValue) -> (outcome: Result<(), String>) {
        self.deadlock_threshold = read_threshold(params, "deadlock_threshold", self.deadlock_threshold);
        self.randomness_threshold = read_threshold(
            params,
            "randomness_threshold",
            self.randomness_threshold,
        );
        self.params_set = true;
        Ok(())
    }

    fn describe(&self) -> (label: String) {
        owned("Omega Tit For Tat Strategy")
    }
}

} // verus!
