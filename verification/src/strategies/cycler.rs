//! Cycler: repeats a given sequence of moves.

use vstd::prelude::*;
use crate::params::ParamValue;
use crate::payoff::Move;
use crate::strategy::{rejected_with, Strategy};
use crate::text::{owned, push_char};

verus! {

/// Plays the moves of its sequence one after the other and starts over at
/// the end. The sequence is never empty.
#[derive(Debug)]
pub struct CyclerStrategy {
    sequence: Vec<Move>,
    index: usize,
}

/// The move that a character of a sequence text names: `C` or `D`, in
/// either case.
pub open spec fn cycle_letter(c: char) -> Option<Move> {
    if c == 'C' || c == 'c' {
        Some(Move::Cooperate)
    } else if c == 'D' || c == 'd' {
        Some(Move::Defect)
    } else {
        None
    }
}

/// The moves that a sequence text names, or its first character that
/// names none.
pub open spec fn cycle_of(text: Seq<char>) -> Result<Seq<Move>, char>
    decreases text.len(),
{
    if text.len() == 0 {
        Ok(Seq::empty())
    } else {
        match cycle_of(text.drop_last()) {
            Ok(front) => match cycle_letter(text.last()) {
                Some(m) => Ok(front.push(m)),
                None => Err(text.last()),
            },
            Err(c) => Err(c),
        }
    }
}

/// The sequence that a payload holds under `sequence`, or the complaint
/// about it.
pub open spec fn sequence_from(params: ParamValue) -> Result<Seq<Move>, Seq<char>> {
    match params.member("sequence"@) {
        Some(value) => match value.text() {
            Some(text) => match cycle_of(text) {
                Ok(moves) => if moves.len() == 0 {
                    Err("Sequence cannot be empty"@)
                } else {
                    Ok(moves)
                },
                Err(c) => Err("Invalid character in sequence: "@.push(c)),
            },
            None => Err("'sequence' must be a string of 'C' and 'D'"@),
        },
        None => Err("Missing 'sequence' parameter"@),
    }
}

/// A failure on a prefix of a text is the failure on the whole text.
pub proof fn lemma_cycle_of_fails_on(text: Seq<char>, n: int)
    requires
        0 <= n <= text.len(),
        cycle_of(text.take(n)) is Err,
    ensures
        cycle_of(text) == cycle_of(text.take(n)),
    decreases text.len() - n,
{
    if n < text.len() {
        assert(text.take(n + 1).drop_last() == text.take(n));
        lemma_cycle_of_fails_on(text, n + 1);
    } else {
        assert(text.take(n) == text);
    }
}

fn read_letter(c: char) -> (m: Option<Move>)
    ensures
        m == cycle_letter(c),
{
    if c == 'C' || c == 'c' {
        Some(Move::Cooperate)
    } else if c == 'D' || c == 'd' {
        Some(Move::Defect)
    } else {
        None
    }
}

/// Reads a sequence text, up to the first character that names no move.
fn read_cycle(text: &str) -> (read: Result<Vec<Move>, char>)
    ensures
        match cycle_of(text@) {
            Ok(moves) => read matches Ok(v) && v@ == moves,
            Err(c) => read == Err::<Vec<Move>, char>(c),
        },
{
    let mut moves: Vec<Move> = Vec::new();
    let n = text.unicode_len();
    let mut i: usize = 0;
    proof {
        assert(text@.take(0) == Seq::<char>::empty());
    }
    while i < n
        invariant
            i <= n,
            n == text@.len(),
            cycle_of(text@.take(i as int)) == Ok::<Seq<Move>, char>(moves@),
        decreases n - i,
    {
        proof {
            assert(text@.take(i + 1).drop_last() == text@.take(i as int));
        }
        let c = text.get_char(i);
        match read_letter(c) {
            Some(m) => {
                moves.push(m);
            },
            None => {
                proof {
                    lemma_cycle_of_fails_on(text@, i + 1);
                }
                return Err(c);
            },
        }
        i += 1;
    }
    proof {
        assert(text@.take(n as int) == text@);
    }
    Ok(moves)
}

impl CyclerStrategy {
    /// The sequence that is repeated.
    pub closed spec fn sequence(&self) -> Seq<Move> {
        self.sequence@
    }

    /// The place in the sequence of the move that comes next.
    pub closed spec fn index(&self) -> nat {
        self.index as nat
    }

    /// A fresh instance, whose sequence is a single cooperation.
    pub fn new() -> (fresh: Self)
        ensures
            fresh.sequence() == seq![Move::Cooperate],
            fresh.index() == 0,
            fresh.valid(),
    {
        let mut sequence: Vec<Move> = Vec::new();
        sequence.push(Move::Cooperate);
        CyclerStrategy { sequence, index: 0 }
    }
}

impl Strategy for CyclerStrategy {
    /// The sequence is not empty and the index lies within it.
    open spec fn valid(&self) -> bool {
        self.index() < self.sequence().len()
    }

    open spec fn allows(
        pre: Self,
        own: Seq<Move>,
        opponent: Seq<Move>,
        post: Self,
        chosen: Move,
    ) -> bool {
        &&& chosen == pre.sequence()[pre.index() as int]
        &&& post.sequence() == pre.sequence()
        &&& post.index() == (pre.index() + 1) % pre.sequence().len()
    }

    open spec fn configures(
        pre: Self,
        params: ParamValue,
        post: Self,
        outcome: Result<(), String>,
    ) -> bool {
        match sequence_from(params) {
            Ok(moves) => outcome is Ok && post.sequence() == moves && post.index() == 0,
            Err(complaint) => post == pre && rejected_with(outcome, complaint),
        }
    }

    open spec fn labelled(&self, text: Seq<char>) -> bool {
        text == "CyclerStrategy"@
    }

    fn next_move(&mut self, own_history: &[Move], opponent_history: &[Move]) -> (chosen: Move) {
        let length = self.sequence.len();
        let chosen = self.sequence[self.index];
        self.index = (self.index + 1) % length;
        chosen
    }

    fn set_parameters(&mut self, params: &ParamValue) -> (outcome: Result<(), String>) {
        match params.get("sequence") {
            Some(value) => match value.as_str() {
                Some(text) => match read_cycle(text) {
                    Ok(parsed) => {
                        if parsed.len() == 0 {
                            return Err(owned("Sequence cannot be empty"));
                        }
                        self.sequence = parsed;
                        self.index = 0;
                        Ok(())
                    },
                    Err(c) => {
                        let mut complaint = owned("Invalid character in sequence: ");
                        push_char(&mut complaint, c);
                        Err(complaint)
                    },
                },
                None => Err(owned("'sequence' must be a string of 'C' and 'D'")),
            },
            None => Err(owned("Missing 'sequence' parameter")),
        }
    }

    fn describe(&self) -> (label: String) {
        owned("CyclerStrategy")
    }
}

} // verus!
