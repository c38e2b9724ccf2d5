//! Adaptive: opens with a given sequence, then plays whichever move has
//! paid better on average.

use vstd::prelude::*;
use crate::history::count_of;
use crate::notation::{parse_values, values_moves};
use crate::params::ParamValue;
use crate::payoff::{calculate_payoffs, payoff_pair, Move};
use crate::strategy::{rejected_with, Strategy};
use crate::text::owned;

verus! {

/// Plays its opening sequence, then the move whose rounds have earned it
/// the higher average payoff so far; cooperation wins a tie.
#[derive(Debug)]
pub struct AdaptiveStrategy {
    initial_sequence: Vec<Move>,
    params_set: bool,
}

/// What the rounds in which the participant played `with` have earned it.
pub open spec fn earned_with(own: Seq<Move>, opponent: Seq<Move>, with: Move) -> nat
    recommends
        own.len() == opponent.len(),
    decreases own.len(),
{
    if own.len() == 0 || opponent.len() == 0 {
        0
    } else {
        earned_with(own.drop_last(), opponent.drop_last(), with) + if own.last() == with {
            payoff_pair(own.last(), opponent.last()).0 as nat
        } else {
            0nat
        }
    }
}

/// Whether an average of `total_c` over `count_c` rounds is at least an
/// average of `total_d` over `count_d` rounds, where an average over no
/// round counts as zero.
pub open spec fn average_at_least(total_c: nat, count_c: nat, total_d: nat, count_d: nat) -> bool {
    let weight_c = if count_c == 0 {
        1
    } else {
        count_c
    };
    let weight_d = if count_d == 0 {
        1
    } else {
        count_d
    };
    total_c * weight_d >= total_d * weight_c
}

/// The move that has paid at least as well on average; `Cooperate` on a
/// tie and before any round.
pub open spec fn better_paid(own: Seq<Move>, opponent: Seq<Move>) -> Move {
    if average_at_least(
        earned_with(own, opponent, Move::Cooperate),
        count_of(own, Move::Cooperate),
        earned_with(own, opponent, Move::Defect),
        count_of(own, Move::Defect),
    ) {
        Move::Cooperate
    } else {
        Move::Defect
    }
}

/// The opening sequence that a payload holds under `initial_sequence`:
/// `None` where the payload holds no list there, the complaint where an
/// item of the list is no move.
pub open spec fn opening_from(params: ParamValue) -> Option<Result<Seq<Move>, Seq<char>>> {
    match params.member("initial_sequence"@) {
        Some(value) => match value.items() {
            Some(items) => match values_moves(items) {
                Some(moves) => Some(Ok(moves)),
                None => Some(Err("Invalid move in initial_sequence (must be 'C' or 'D')"@)),
            },
            None => None,
        },
        None => None,
    }
}

impl AdaptiveStrategy {
    /// The moves that the strategy opens with.
    pub closed spec fn initial_sequence(&self) -> Seq<Move> {
        self.initial_sequence@
    }

    /// Whether a configuration has set the opening sequence.
    pub closed spec fn params_set(&self) -> bool {
        self.params_set
    }

    /// A fresh instance, without an opening sequence.
    pub fn new() -> (fresh: Self)
        ensures
            fresh.initial_sequence() == Seq::<Move>::empty(),
            !fresh.params_set(),
    {
        Self { initial_sequence: Vec::new(), params_set: false }
    }

    /// The move for the coming round.
    pub open spec fn answer(&self, own: Seq<Move>, opponent: Seq<Move>) -> Move {
        if own.len() < self.initial_sequence().len() {
            self.initial_sequence()[own.len() as int]
        } else {
            better_paid(own, opponent)
        }
    }
}

/// Totals and counts of both moves over two histories of one length.
fn tally(own_history: &[Move], opponent_history: &[Move]) -> (sums: (u128, u64, u128, u64))
    requires
        own_history@.len() == opponent_history@.len(),
    ensures
        sums.0 == earned_with(own_history@, opponent_history@, Move::Cooperate),
        sums.1 == count_of(own_history@, Move::Cooperate),
        sums.2 == earned_with(own_history@, opponent_history@, Move::Defect),
        sums.3 == count_of(own_history@, Move::Defect),
        sums.0 <= 3 * sums.1,
        sums.2 <= 5 * sums.3,
        sums.1 + sums.3 == own_history@.len(),
{
    let mut c_total: u128 = 0;
    let mut c_count: u64 = 0;
    let mut d_total: u128 = 0;
    let mut d_count: u64 = 0;
    let n = own_history.len();
    let mut i: usize = 0;
    while i < n
        invariant
            i <= n,
            n == own_history@.len(),
            n == opponent_history@.len(),
            c_total == earned_with(
                own_history@.take(i as int),
                opponent_history@.take(i as int),
                Move::Cooperate,
            ),
            c_count == count_of(own_history@.take(i as int), Move::Cooperate),
            d_total == earned_with(
                own_history@.take(i as int),
                opponent_history@.take(i as int),
                Move::Defect,
            ),
            d_count == count_of(own_history@.take(i as int), Move::Defect),
            c_count + d_count == i,
            c_total <= 3 * c_count,
            d_total <= 5 * d_count,
        decreases n - i,
    {
        proof {
            assert(own_history@.take(i + 1).drop_last() == own_history@.take(i as int));
            assert(opponent_history@.take(i + 1).drop_last() == opponent_history@.take(i as int));
        }
        let mine = own_history[i];
        let (my_payoff, _) = calculate_payoffs(mine, opponent_history[i]);
        match mine {
            Move::Cooperate => {
                c_total += my_payoff as u128;
                c_count += 1;
            },
            Move::Defect => {
                d_total += my_payoff as u128;
                d_count += 1;
            },
        }
        i += 1;
    }
    proof {
        assert(own_history@.take(n as int) == own_history@);
        assert(opponent_history@.take(n as int) == opponent_history@);
    }
    (c_total, c_count, d_total, d_count)
}

/// Compares the two averages without dividing.
fn cooperation_pays(c_total: u128, c_count: u64, d_total: u128, d_count: u64) -> (pays: bool)
    requires
        c_total <= 3 * c_count,
        d_total <= 5 * d_count,
        c_count + d_count <= u64::MAX,
    ensures
        pays == average_at_least(c_total as nat, c_count as nat, d_total as nat, d_count as nat),
{
    let weight_c: u128 = if c_count == 0 {
        1
    } else {
        c_count as u128
    };
    let weight_d: u128 = if d_count == 0 {
        1
    } else {
        d_count as u128
    };
    proof {
        let c = c_count as int;
        let d = d_count as int;
        let w = weight_d as int;
        let t = c_total as int;
        if d_count > 0 {
            assert(4 * (c * d) <= (c + d) * (c + d)) by (nonlinear_arith);
            assert((c + d) * (c + d) <= 0x1_0000_0000_0000_0000 * 0x1_0000_0000_0000_0000)
                by (nonlinear_arith)
                requires
                    0 <= c + d <= 0x1_0000_0000_0000_0000,
            ;
            assert(t * w <= 3 * (c * d)) by (nonlinear_arith)
                requires
                    0 <= t <= 3 * c,
                    w == d,
                    d > 0,
            ;
        }
        assert(t * w <= u128::MAX);
    }
    let left: u128 = c_total * weight_d;
    match d_total.checked_mul(weight_c) {
        Some(right) => left >= right,
        None => false,
    }
}

impl Strategy for AdaptiveStrategy {
    open spec fn valid(&self) -> bool {
        true
    }

    open spec fn allows(
        pre: Self,
        own: Seq<Move>,
        opponent: Seq<Move>,
        post: Self,
        chosen: Move,
    ) -> bool {
        post == pre && chosen == pre.answer(own, opponent)
    }

    open spec fn configures(
        pre: Self,
        params: ParamValue,
        post: Self,
        outcome: Result<(), String>,
    ) -> bool {
        match opening_from(params) {
            Some(Ok(moves)) => outcome is Ok && post.initial_sequence() == moves
                && post.params_set(),
            Some(Err(complaint)) => post == pre && rejected_with(outcome, complaint),
            None => outcome is Ok && post == pre,
        }
    }

    open spec fn labelled(&self, text: Seq<char>) -> bool {
        text == "Adaptive Strategy"@
    }

    fn next_move(&mut self, own_history: &[Move], opponent_history: &[Move]) -> (chosen: Move) {
        if own_history.len() < self.initial_sequence.len() {
            return self.initial_sequence[own_history.len()];
        }
        let (c_total, c_count, d_total, d_count) = tally(own_history, opponent_history);
        if cooperation_pays(c_total, c_count, d_total, d_count) {
            Move::Cooperate
        } else {
            Move::Defect
        }
    }

    fn set_parameters(&mut self, params: &ParamValue) -> (outcome: Result<(), String>) {
        if let Some(value) = params.get("initial_sequence") {
            if let Some(items) = value.as_list() {
                match parse_values(items) {
                    Some(moves) => {
                        self.initial_sequence = moves;
                        self.params_set = true;
                    },
                    None => {
                        return Err(owned("Invalid move in initial_sequence (must be 'C' or 'D')"));
                    },
                }
            }
        }
        Ok(())
    }

    fn describe(&self) -> (label: String) {
        owned("Adaptive Strategy")
    }
}

} // verus!
