//! The engine: plays two strategies against each other, round by round.

use vstd::prelude::*;
use crate::error::SimulationError;
use crate::payoff::{calculate_payoffs, payoff_pair, Move};
use crate::strategy::Strategy;
use crate::text::owned;

verus! {

/// What happened in one round.
#[derive(Clone, Copy, PartialEq, Eq, Structural, Debug)]
pub struct RoundResult {
    /// The number of the round, counted from one.
    pub iteration: u32,
    pub move1: Move,
    pub move2: Move,
    pub payoff1: i32,
    pub payoff2: i32,
}

/// Who earned more in a round.
#[derive(Clone, Copy, PartialEq, Eq, Structural, Debug)]
pub enum Winner {
    First,
    Second,
    Tie,
}

/// A finished match.
#[derive(Debug)]
pub struct MatchOutcome {
    /// The sum of the first participant's payoffs.
    pub total1: i64,
    /// The sum of the second participant's payoffs.
    pub total2: i64,
    /// The moves of the first participant, oldest first.
    pub history1: Vec<Move>,
    /// The moves of the second participant, oldest first.
    pub history2: Vec<Move>,
    /// One record for each round, in the order of play.
    pub rounds: Vec<RoundResult>,
}

/// The record of the round with index `index`, counted from zero, in which
/// `first` and `second` were played.
pub open spec fn round_record(index: int, first: Move, second: Move) -> RoundResult {
    RoundResult {
        iteration: (index + 1) as u32,
        move1: first,
        move2: second,
        payoff1: payoff_pair(first, second).0 as i32,
        payoff2: payoff_pair(first, second).1 as i32,
    }
}

/// The sums of the payoffs of both participants over two histories.
pub open spec fn total_payoffs(first: Seq<Move>, second: Seq<Move>) -> (int, int)
    recommends
        first.len() == second.len(),
    decreases first.len(),
{
    if first.len() == 0 || second.len() == 0 {
        (0, 0)
    } else {
        let before = total_payoffs(first.drop_last(), second.drop_last());
        let now = payoff_pair(first.last(), second.last());
        (before.0 + now.0, before.1 + now.1)
    }
}

/// Round `k` went by the rules: each strategy decided in the state that
/// the round before had left it in, on the moves of the rounds before `k`
/// alone, its own history first.
pub open spec fn round_in_order<A: Strategy, B: Strategy>(
    states1: Seq<A>,
    states2: Seq<B>,
    history1: Seq<Move>,
    history2: Seq<Move>,
    k: int,
) -> bool {
    &&& A::allows(states1[k], history1.take(k), history2.take(k), states1[k + 1], history1[k])
    &&& B::allows(states2[k], history2.take(k), history1.take(k), states2[k + 1], history2[k])
}

/// The two histories are a course of play that leads the strategies
/// through `states1` and `states2`: one state before each round and one
/// after the last, and every round in order.
pub open spec fn is_course<A: Strategy, B: Strategy>(
    states1: Seq<A>,
    states2: Seq<B>,
    history1: Seq<Move>,
    history2: Seq<Move>,
) -> bool {
    &&& history2.len() == history1.len()
    &&& states1.len() == history1.len() + 1
    &&& states2.len() == history1.len() + 1
    &&& forall|k: int|
        0 <= k < history1.len() ==> #[trigger] round_in_order(
            states1,
            states2,
            history1,
            history2,
            k,
        )
}

/// The two histories can come about when `start1` plays `start2`, and
/// leave the strategies as `end1` and `end2`.
pub open spec fn played<A: Strategy, B: Strategy>(
    start1: A,
    start2: B,
    history1: Seq<Move>,
    history2: Seq<Move>,
    end1: A,
    end2: B,
) -> bool {
    exists|states1: Seq<A>, states2: Seq<B>|
        {
            &&& #[trigger] is_course(states1, states2, history1, history2)
            &&& states1.first() == start1
            &&& states2.first() == start2
            &&& states1.last() == end1
            &&& states2.last() == end2
        }
}

/// No strategy looks ahead: in a course of play the decision of round `k`
/// is taken on exactly the `k` moves that each side has played before it,
/// and on nothing of round `k` itself.
pub proof fn lemma_course_shows_only_the_past<A: Strategy, B: Strategy>(
    states1: Seq<A>,
    states2: Seq<B>,
    history1: Seq<Move>,
    history2: Seq<Move>,
    k: int,
)
    requires
        is_course(states1, states2, history1, history2),
        0 <= k < history1.len(),
    ensures
        history1.take(k).len() == k,
        history2.take(k).len() == k,
        A::allows(states1[k], history1.take(k), history2.take(k), states1[k + 1], history1[k]),
        B::allows(states2[k], history2.take(k), history1.take(k), states2[k + 1], history2[k]),
{
    assert(round_in_order(states1, states2, history1, history2, k));
}

/// Who earned more with these two payoffs.
pub fn round_winner(payoff1: i32, payoff2: i32) -> (winner: Winner)
    ensures
        winner == if payoff1 > payoff2 {
            Winner::First
        } else if payoff1 < payoff2 {
            Winner::Second
        } else {
            Winner::Tie
        },
{
    if payoff1 > payoff2 {
        Winner::First
    } else if payoff1 < payoff2 {
        Winner::Second
    } else {
        Winner::Tie
    }
}

/// The display name of the strategy that earned more with these two
/// payoffs, or `Tie`.
pub fn determine_winner<A: Strategy, B: Strategy>(
    payoff1: i32,
    payoff2: i32,
    strategy1: &A,
    strategy2: &B,
) -> (name: String)
    requires
        strategy1.valid(),
        strategy2.valid(),
    ensures
        payoff1 > payoff2 ==> strategy1.labelled(name@),
        payoff1 < payoff2 ==> strategy2.labelled(name@),
        payoff1 == payoff2 ==> name@ == "Tie"@,
{
    match round_winner(payoff1, payoff2) {
        Winner::First => strategy1.describe(),
        Winner::Second => strategy2.describe(),
        Winner::Tie => owned("Tie"),
    }
}

/// Plays one round. Both strategies decide on the histories as they stand,
/// the first before the second; only then are the two moves scored and
/// appended, so neither sees the other's move of this round.
pub fn play_round<A: Strategy, B: Strategy>(
    strategy1: &mut A,
    strategy2: &mut B,
    history1: &mut Vec<Move>,
    history2: &mut Vec<Move>,
) -> (result: RoundResult)
    requires
        old(strategy1).valid(),
        old(strategy2).valid(),
        old(history1)@.len() == old(history2)@.len(),
        old(history1)@.len() < u32::MAX,
    ensures
        final(strategy1).valid(),
        final(strategy2).valid(),
        A::allows(
            *old(strategy1),
            old(history1)@,
            old(history2)@,
            *final(strategy1),
            result.move1,
        ),
        B::allows(
            *old(strategy2),
            old(history2)@,
            old(history1)@,
            *final(strategy2),
            result.move2,
        ),
        final(history1)@ == old(history1)@.push(result.move1),
        final(history2)@ == old(history2)@.push(result.move2),
        result == round_record(old(history1)@.len() as int, result.move1, result.move2),
{
    let move1 = strategy1.next_move(history1.as_slice(), history2.as_slice());
    let move2 = strategy2.next_move(history2.as_slice(), history1.as_slice());
    let (payoff1, payoff2) = calculate_payoffs(move1, move2);
    let iteration = (history1.len() + 1) as u32;
    history1.push(move1);
    history2.push(move2);
    RoundResult { iteration, move1, move2, payoff1, payoff2 }
}

/// Plays a match of `rounds` rounds and returns the histories, a record
/// of each round and the totals.
///
/// Zero rounds are rejected before any strategy is asked. Otherwise the
/// histories are a course of play of exactly `rounds` rounds from the
/// states the strategies came in, to the states they are left in.
pub fn run<A: Strategy, B: Strategy>(strategy1: &mut A, strategy2: &mut B, rounds: u32) -> (outcome:
    Result<MatchOutcome, SimulationError>)
    requires
        old(strategy1).valid(),
        old(strategy2).valid(),
    ensures
        final(strategy1).valid(),
        final(strategy2).valid(),
        rounds == 0 ==> outcome is Err,
        rounds > 0 ==> outcome is Ok,
        outcome matches Err(failure) ==> {
            &&& failure is InvalidRoundCount
            &&& *final(strategy1) == *old(strategy1)
            &&& *final(strategy2) == *old(strategy2)
        },
        outcome matches Ok(done) ==> {
            &&& done.history1@.len() == rounds
            &&& done.history2@.len() == rounds
            &&& played(
                *old(strategy1),
                *old(strategy2),
                done.history1@,
                done.history2@,
                *final(strategy1),
                *final(strategy2),
            )
            &&& done.rounds@.len() == rounds
            &&& forall|k: int|
                0 <= k < rounds ==> #[trigger] done.rounds@[k] == round_record(
                    k,
                    done.history1@[k],
                    done.history2@[k],
                )
            &&& done.total1 == total_payoffs(done.history1@, done.history2@).0
            &&& done.total2 == total_payoffs(done.history1@, done.history2@).1
        },
{
    if rounds == 0 {
        return Err(SimulationError::InvalidRoundCount);
    }
    let mut history1: Vec<Move> = Vec::new();
    let mut history2: Vec<Move> = Vec::new();
    let mut records: Vec<RoundResult> = Vec::new();
    let mut total1: i64 = 0;
    let mut total2: i64 = 0;
    let ghost mut states1: Seq<A> = seq![*strategy1];
    let ghost mut states2: Seq<B> = seq![*strategy2];
    let mut k: u32 = 0;
    while k < rounds
        invariant
            k <= rounds,
            strategy1.valid(),
            strategy2.valid(),
            history1@.len() == k,
            history2@.len() == k,
            records@.len() == k,
            is_course(states1, states2, history1@, history2@),
            states1.first() == *old(strategy1),
            states2.first() == *old(strategy2),
            states1.last() == *strategy1,
            states2.last() == *strategy2,
            forall|j: int|
                0 <= j < k ==> #[trigger] records@[j] == round_record(
                    j,
                    history1@[j],
                    history2@[j],
                ),
            total1 == total_payoffs(history1@, history2@).0,
            total2 == total_payoffs(history1@, history2@).1,
            0 <= total1 <= 5 * k,
            0 <= total2 <= 5 * k,
        decreases rounds - k,
    {
        let ghost before1 = history1@;
        let ghost before2 = history2@;
        let ghost past1 = states1;
        let ghost past2 = states2;
        let result = play_round(strategy1, strategy2, &mut history1, &mut history2);
        total1 = total1 + result.payoff1 as i64;
        total2 = total2 + result.payoff2 as i64;
        records.push(result);
        proof {
            states1 = states1.push(*strategy1);
            states2 = states2.push(*strategy2);
            assert(history1@.drop_last() == before1);
            assert(history2@.drop_last() == before2);
            assert forall|j: int| 0 <= j < history1@.len() implies #[trigger] round_in_order(
                states1,
                states2,
                history1@,
                history2@,
                j,
            ) by {
                if j < k {
                    assert(round_in_order(past1, past2, before1, before2, j));
                    assert(history1@.take(j) == before1.take(j));
                    assert(history2@.take(j) == before2.take(j));
                } else {
                    assert(history1@.take(j) == before1);
                    assert(history2@.take(j) == before2);
                }
            }
        }
        k += 1;
    }
    Ok(MatchOutcome { total1, total2, history1, history2, rounds: records })
}

} // verus!
