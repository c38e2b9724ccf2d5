//! The two-valued move and the fixed payoff matrix.

use vstd::prelude::*;

verus! {

/// A participant's choice in one round.
#[derive(Clone, Copy, PartialEq, Eq, Structural, Debug, Hash)]
pub enum Move {
    Cooperate,
    Defect,
}

/// Payoff to each participant when both cooperate.
pub const REWARD: i32 = 3;

/// Payoff to a defector whose opponent cooperates.
pub const TEMPTATION: i32 = 5;

/// Payoff to a cooperator whose opponent defects.
pub const SUCKER: i32 = 0;

/// Payoff to each participant when both defect.
pub const PUNISHMENT: i32 = 1;

impl Move {
    /// The other move.
    pub open spec fn opposite_spec(self) -> Move {
        match self {
            Move::Cooperate => Move::Defect,
            Move::Defect => Move::Cooperate,
        }
    }

    /// The other move.
    pub fn opposite(self) -> (flipped: Move)
        ensures
            flipped == self.opposite_spec(),
    {
        match self {
            Move::Cooperate => Move::Defect,
            Move::Defect => Move::Cooperate,
        }
    }
}

/// The payoff pair of the matrix for the ordered pair of moves.
pub open spec fn payoff_pair(first: Move, second: Move) -> (int, int) {
    match (first, second) {
        (Move::Cooperate, Move::Cooperate) => (3, 3),
        (Move::Cooperate, Move::Defect) => (0, 5),
        (Move::Defect, Move::Cooperate) => (5, 0),
        (Move::Defect, Move::Defect) => (1, 1),
    }
}

/// The matrix is that of a prisoner's dilemma: temptation pays more than
/// reward, reward more than punishment, punishment more than the sucker's
/// payoff, and two rewards pay more than temptation and sucker's payoff
/// together.
pub proof fn lemma_payoffs_form_a_dilemma()
    ensures
        TEMPTATION > REWARD > PUNISHMENT > SUCKER,
        2 * REWARD > TEMPTATION + SUCKER,
        payoff_pair(Move::Cooperate, Move::Cooperate) == (REWARD as int, REWARD as int),
        payoff_pair(Move::Cooperate, Move::Defect) == (SUCKER as int, TEMPTATION as int),
        payoff_pair(Move::Defect, Move::Cooperate) == (TEMPTATION as int, SUCKER as int),
        payoff_pair(Move::Defect, Move::Defect) == (PUNISHMENT as int, PUNISHMENT as int),
{
}

/// Scores one round: the first component is the payoff of the participant
/// who played `move1`, the second that of the one who played `move2`.
pub fn calculate_payoffs(move1: Move, move2: Move) -> (payoffs: (i32, i32))
    ensures
        payoffs.0 == payoff_pair(move1, move2).0,
        payoffs.1 == payoff_pair(move1, move2).1,
{
    match (move1, move2) {
        (Move::Cooperate, Move::Cooperate) => (REWARD, REWARD),
        (Move::Cooperate, Move::Defect) => (SUCKER, TEMPTATION),
        (Move::Defect, Move::Cooperate) => (TEMPTATION, SUCKER),
        (Move::Defect, Move::Defect) => (PUNISHMENT, PUNISHMENT),
    }
}

} // verus!
