//! The letters `C` and `D` that configuration payloads write moves with.

use vstd::prelude::*;
use crate::params::ParamValue;
use crate::payoff::Move;
use crate::text::same_text;

verus! {

/// The move that a one-letter text names: `C` or `D`, in upper case.
pub open spec fn letter_move(text: Seq<char>) -> Option<Move> {
    if text == "C"@ {
        Some(Move::Cooperate)
    } else if text == "D"@ {
        Some(Move::Defect)
    } else {
        None
    }
}

/// The move that a payload value names: a text that is `C` or `D`.
pub open spec fn value_move(value: ParamValue) -> Option<Move> {
    match value.text() {
        Some(text) => letter_move(text),
        None => None,
    }
}

/// The moves that a list of payload values names, if every item names one.
pub open spec fn values_moves(items: Seq<ParamValue>) -> Option<Seq<Move>>
    decreases items.len(),
{
    if items.len() == 0 {
        Some(Seq::empty())
    } else {
        match (values_moves(items.drop_last()), value_move(items.last())) {
            (Some(front), Some(last)) => Some(front.push(last)),
            _ => None,
        }
    }
}

/// Reads a move from its letter.
pub fn parse_letter(text: &str) -> (parsed: Option<Move>)
    ensures
        parsed == letter_move(text@),
{
    if same_text(text, "C") {
        Some(Move::Cooperate)
    } else if same_text(text, "D") {
        Some(Move::Defect)
    } else {
        None
    }
}

/// Reads a move from a payload value.
pub fn parse_value(value: &ParamValue) -> (parsed: Option<Move>)
    ensures
        parsed == value_move(*value),
{
    match value.as_str() {
        Some(text) => parse_letter(text),
        None => None,
    }
}

/// Reads a list of moves; `None` as soon as one item names no move.
pub fn parse_values(items: &Vec<ParamValue>) -> (parsed: Option<Vec<Move>>)
    ensures
        parsed is Some <==> values_moves(items@) is Some,
        parsed matches Some(moves) ==> values_moves(items@) == Some(moves@),
{
    let mut moves: Vec<Move> = Vec::new();
    let mut i: usize = 0;
    proof {
        assert(items@.take(0) == Seq::<ParamValue>::empty());
    }
    while i < items.len()
        invariant
            i <= items@.len(),
            values_moves(items@.take(i as int)) == Some(moves@),
        decreases items@.len() - i,
    {
        proof {
            assert(items@.take(i + 1).drop_last() == items@.take(i as int));
        }
        match parse_value(&items[i]) {
            Some(m) => {
                moves.push(m);
            },
            None => {
                proof {
                    lemma_values_moves_prefix(items@, i + 1);
                }
                return None;
            },
        }
        i += 1;
    }
    proof {
        assert(items@.take(i as int) == items@);
    }
    Some(moves)
}

/// Where a prefix of a list holds an item that names no move, the list
/// names no moves either.
pub proof fn lemma_values_moves_prefix(items: Seq<ParamValue>, n: int)
    requires
        0 <= n <= items.len(),
        values_moves(items.take(n)) is None,
    ensures
        values_moves(items) is None,
    decreases items.len() - n,
{
    if n < items.len() {
        assert(items.take(n + 1).drop_last() == items.take(n));
        lemma_values_moves_prefix(items, n + 1);
    } else {
        assert(items.take(n) == items);
    }
}

} // verus!
