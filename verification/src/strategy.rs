//! The contract that every strategy meets.

use vstd::prelude::*;
use crate::params::ParamValue;
use crate::payoff::Move;

verus! {

/// The outcome is a rejection whose reason reads `complaint`.
pub open spec fn rejected_with(outcome: Result<(), String>, complaint: Seq<char>) -> bool {
    outcome matches Err(reason) && reason@ == complaint
}

/// A decision procedure for one participant of a match.
///
/// An instance is owned by one participant for the length of a match. What
/// it decides, how it is configured and what it is called is stated by
/// the specification functions `allows`, `configures` and `labelled`, and
/// `valid` states what holds of an instance between calls. Every strategy
/// of this library fills them in, and is verified against them. Left as
/// they are, they admit every instance, decision, configuration and name:
/// of such an implementation nothing is known.
pub trait Strategy: Sized {
    /// The instance is internally consistent.
    open spec fn valid(&self) -> bool {
        true
    }

    /// A decision taken on `pre` with the histories `own` and `opponent`
    /// may choose `chosen` and leave the instance as `post`. For a
    /// strategy without chance exactly one pair of `post` and `chosen`
    /// is allowed.
    open spec fn allows(
        pre: Self,
        own: Seq<Move>,
        opponent: Seq<Move>,
        post: Self,
        chosen: Move,
    ) -> bool {
        true
    }

    /// Configuring `pre` with `params` may end in `outcome` and leave the
    /// instance as `post`.
    open spec fn configures(
        pre: Self,
        params: ParamValue,
        post: Self,
        outcome: Result<(), String>,
    ) -> bool {
        true
    }

    /// `text` is the display name of the instance, which may embed
    /// configured values.
    open spec fn labelled(&self, text: Seq<char>) -> bool {
        true
    }

    /// Decides the move of the coming round. Both histories hold the
    /// rounds played so far, oldest first, and have the same length.
    fn next_move(&mut self, own_history: &[Move], opponent_history: &[Move]) -> (chosen: Move)
        requires
            old(self).valid(),
            own_history@.len() == opponent_history@.len(),
        ensures
            final(self).valid(),
            Self::allows(*old(self), own_history@, opponent_history@, *final(self), chosen),
    ;

    /// Validates `params` and applies them. A rejected payload leaves the
    /// instance unchanged.
    fn set_parameters(&mut self, params: &ParamValue) -> (outcome: Result<(), String>)
        requires
            old(self).valid(),
        ensures
            final(self).valid(),
            Self::configures(*old(self), *params, *final(self), outcome),
            outcome is Err ==> *final(self) == *old(self),
    ;

    /// The display name of the instance.
    fn describe(&self) -> (label: String)
        requires
            self.valid(),
        ensures
            self.labelled(label@),
    ;
}

} // verus!
