//! Histories: the moves a participant has played so far, oldest first.

use vstd::prelude::*;
use crate::payoff::Move;

verus! {

/// How many times `wanted` occurs in `moves`.
pub open spec fn count_of(moves: Seq<Move>, wanted: Move) -> nat
    decreases moves.len(),
{
    if moves.len() == 0 {
        0
    } else {
        count_of(moves.drop_last(), wanted) + if moves.last() == wanted {
            1nat
        } else {
            0nat
        }
    }
}

/// The most recent move, if any round has been played.
pub open spec fn latest(moves: Seq<Move>) -> Option<Move> {
    if moves.len() == 0 {
        None
    } else {
        Some(moves.last())
    }
}

/// The opponent's latest move, or `opening` before the first round.
pub open spec fn mirrored(opponent: Seq<Move>, opening: Move) -> Move {
    match latest(opponent) {
        Some(m) => m,
        None => opening,
    }
}

/// The last `width` moves; meaningful when `width <= moves.len()`.
pub open spec fn recent(moves: Seq<Move>, width: int) -> Seq<Move> {
    moves.subrange(moves.len() - width, moves.len() as int)
}

/// A move occurs in a history exactly when its count is positive.
pub proof fn lemma_count_positive_iff_contains(moves: Seq<Move>, wanted: Move)
    ensures
        count_of(moves, wanted) > 0 <==> moves.contains(wanted),
    decreases moves.len(),
{
    if moves.len() > 0 {
        let front = moves.drop_last();
        lemma_count_positive_iff_contains(front, wanted);
        if moves.last() == wanted {
            assert(moves[moves.len() - 1] == wanted);
        } else if front.contains(wanted) {
            let i = choose|i: int| 0 <= i < front.len() && front[i] == wanted;
            assert(moves[i] == wanted);
        } else if moves.contains(wanted) {
            let i = choose|i: int| 0 <= i < moves.len() && moves[i] == wanted;
            assert(front[i] == wanted);
        }
    }
}

/// Counts the occurrences of `wanted` in `history`.
pub fn count_moves(history: &[Move], wanted: Move) -> (total: usize)
    ensures
        total == count_of(history@, wanted),
        total <= history@.len(),
{
    let mut total: usize = 0;
    let mut i: usize = 0;
    while i < history.len()
        invariant
            i <= history@.len(),
            total == count_of(history@.take(i as int), wanted),
            total <= i,
        decreases history@.len() - i,
    {
        proof {
            assert(history@.take(i + 1).drop_last() == history@.take(i as int));
        }
        if history[i] == wanted {
            total += 1;
        }
        i += 1;
    }
    proof {
        assert(history@.take(i as int) == history@);
    }
    total
}

/// The most recent move of `history`, or `None` before the first round.
pub fn last_move(history: &[Move]) -> (found: Option<Move>)
    ensures
        found == latest(history@),
{
    if history.len() == 0 {
        None
    } else {
        Some(history[history.len() - 1])
    }
}

/// The opponent's latest move, or `opening` before the first round.
pub fn mirror(opponent_history: &[Move], opening: Move) -> (chosen: Move)
    ensures
        chosen == mirrored(opponent_history@, opening),
{
    match last_move(opponent_history) {
        Some(m) => m,
        None => opening,
    }
}

} // verus!
