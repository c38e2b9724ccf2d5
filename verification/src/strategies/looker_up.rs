//! Looker Up: answers from a table keyed on the last moves of both sides.

use vstd::prelude::*;
use crate::history::recent;
use crate::notation::{letter_move, parse_letter, parse_values, values_moves};
use crate::params::ParamValue;
use crate::payoff::Move;
use crate::strategy::{rejected_with, Strategy};
use crate::text::owned;

verus! {

/// One line of the table: the window of own moves, the window of the
/// opponent's moves, and the move to answer with.
#[derive(Debug)]
pub struct LookupRule {
    pub own: Vec<Move>,
    pub opponent: Vec<Move>,
    pub response: Move,
}

/// A line of the table as plain values.
pub type RuleView = (Seq<Move>, Seq<Move>, Move);

impl View for LookupRule {
    type V = RuleView;

    open spec fn view(&self) -> RuleView {
        (self.own@, self.opponent@, self.response)
    }
}

/// Plays the move that its table holds for the last `history_length` moves
/// of both participants, and cooperates where the table holds none.
#[derive(Debug)]
pub struct LookerUpStrategy {
    rules: Vec<LookupRule>,
    history_length: u64,
}

/// The lines of a table as plain values.
pub open spec fn rules_view(rules: Seq<LookupRule>) -> Seq<RuleView> {
    Seq::new(rules.len(), |i: int| rules[i]@)
}

/// The answer of the table: that of the last line with these two windows,
/// and `Cooperate` if there is none. A later line replaces an earlier one
/// with the same windows.
pub open spec fn looked_up(rules: Seq<RuleView>, own: Seq<Move>, opponent: Seq<Move>) -> Move
    decreases rules.len(),
{
    if rules.len() == 0 {
        Move::Cooperate
    } else if rules.last().0 == own && rules.last().1 == opponent {
        rules.last().2
    } else {
        looked_up(rules.drop_last(), own, opponent)
    }
}

/// What one entry of `lookup_table` holds, or the complaint about it.
pub open spec fn rule_of(entry: ParamValue) -> Result<RuleView, Seq<char>> {
    match entry.member("own"@) {
        Some(own) if own.items() is Some => match entry.member("opp"@) {
            Some(opp) if opp.items() is Some => match entry.member("move"@) {
                Some(answer) if answer.text() is Some => match values_moves(own.items().unwrap()) {
                    Some(own_moves) => match values_moves(opp.items().unwrap()) {
                        Some(opp_moves) => match letter_move(answer.text().unwrap()) {
                            Some(response) => Ok((own_moves, opp_moves, response)),
                            None => Err("Invalid 'move' value, must be 'C' or 'D'"@),
                        },
                        None => Err("Invalid move in 'opp' array, must be 'C' or 'D'"@),
                    },
                    None => Err("Invalid move in 'own' array, must be 'C' or 'D'"@),
                },
                _ => Err("Each entry must have a 'move' string"@),
            },
            _ => Err("Each entry must have an 'opp' array"@),
        },
        _ => Err("Each entry must have an 'own' array"@),
    }
}

/// The table that the entries hold, or the complaint about the first entry
/// that is not in order.
pub open spec fn rules_of(entries: Seq<ParamValue>) -> Result<Seq<RuleView>, Seq<char>>
    decreases entries.len(),
{
    if entries.len() == 0 {
        Ok(Seq::empty())
    } else {
        match rules_of(entries.drop_last()) {
            Ok(front) => match rule_of(entries.last()) {
                Ok(rule) => Ok(front.push(rule)),
                Err(complaint) => Err(complaint),
            },
            Err(complaint) => Err(complaint),
        }
    }
}

/// The window length and the table that a payload holds, or the complaint
/// about it.
pub open spec fn lookup_settings(params: ParamValue) -> Result<(u64, Seq<RuleView>), Seq<char>> {
    match params.member("history_length"@) {
        Some(length) if length.unsigned() is Some => match params.member("lookup_table"@) {
            Some(table) if table.items() is Some => match rules_of(table.items().unwrap()) {
                Ok(rules) => Ok((length.unsigned().unwrap(), rules)),
                Err(complaint) => Err(complaint),
            },
            _ => Err("Missing or invalid 'lookup_table'"@),
        },
        _ => Err("Missing or invalid 'history_length'"@),
    }
}

/// Whether the last `width` moves of `history` are `window`.
fn ends_with(history: &[Move], width: usize, window: &Vec<Move>) -> (same: bool)
    requires
        width <= history@.len(),
    ensures
        same == (recent(history@, width as int) == window@),
{
    if window.len() != width {
        return false;
    }
    let total = history.len();
    let start = total - width;
    let mut i: usize = 0;
    while i < width
        invariant
            i <= width,
            width == window@.len(),
            total == history@.len(),
            start + width == total,
            forall|j: int| 0 <= j < i ==> history@[start + j] == window@[j],
        decreases width - i,
    {
        if history[start + i] != window[i] {
            proof {
                assert(recent(history@, width as int)[i as int] == history@[start + i]);
            }
            return false;
        }
        i += 1;
    }
    proof {
        assert(recent(history@, width as int) =~= window@);
    }
    true
}

/// Reads one entry of `lookup_table`.
fn read_rule(entry: &ParamValue) -> (read: Result<LookupRule, String>)
    ensures
        match rule_of(*entry) {
            Ok(rule) => read matches Ok(r) && r@ == rule,
            Err(complaint) => read matches Err(e) && e@ == complaint,
        },
{
    let own = match entry.get("own") {
        Some(value) => match value.as_list() {
            Some(items) => items,
            None => {
                return Err(owned("Each entry must have an 'own' array"));
            },
        },
        None => {
            return Err(owned("Each entry must have an 'own' array"));
        },
    };
    let opp = match entry.get("opp") {
        Some(value) => match value.as_list() {
            Some(items) => items,
            None => {
                return Err(owned("Each entry must have an 'opp' array"));
            },
        },
        None => {
            return Err(owned("Each entry must have an 'opp' array"));
        },
    };
    let answer = match entry.get("move") {
        Some(value) => match value.as_str() {
            Some(text) => text,
            None => {
                return Err(owned("Each entry must have a 'move' string"));
            },
        },
        None => {
            return Err(owned("Each entry must have a 'move' string"));
        },
    };
    let own_moves = match parse_values(own) {
        Some(moves) => moves,
        None => {
            return Err(owned("Invalid move in 'own' array, must be 'C' or 'D'"));
        },
    };
    let opp_moves = match parse_values(opp) {
        Some(moves) => moves,
        None => {
            return Err(owned("Invalid move in 'opp' array, must be 'C' or 'D'"));
        },
    };
    match parse_letter(answer) {
        Some(response) => Ok(LookupRule { own: own_moves, opponent: opp_moves, response }),
        None => Err(owned("Invalid 'move' value, must be 'C' or 'D'")),
    }
}

/// Reads the entries of `lookup_table` in order, up to the first that is
/// not in order.
fn read_rules(entries: &Vec<ParamValue>) -> (read: Result<Vec<LookupRule>, String>)
    ensures
        match rules_of(entries@) {
            Ok(rules) => read matches Ok(r) && rules_view(r@) == rules,
            Err(complaint) => read matches Err(e) && e@ == complaint,
        },
{
    let mut rules: Vec<LookupRule> = Vec::new();
    let mut i: usize = 0;
    proof {
        assert(entries@.take(0) == Seq::<ParamValue>::empty());
        assert(rules_view(rules@) == Seq::<RuleView>::empty());
    }
    while i < entries.len()
        invariant
            i <= entries@.len(),
            rules_of(entries@.take(i as int)) == Ok::<Seq<RuleView>, Seq<char>>(rules_view(rules@)),
        decreases entries@.len() - i,
    {
        proof {
            assert(entries@.take(i + 1).drop_last() == entries@.take(i as int));
        }
        match read_rule(&entries[i]) {
            Ok(rule) => {
                let ghost before = rules_view(rules@);
                rules.push(rule);
                proof {
                    assert(rules_view(rules@) == before.push(rule@));
                }
            },
            Err(complaint) => {
                proof {
                    lemma_rules_of_fails_on(entries@, i + 1);
                }
                return Err(complaint);
            },
        }
        i += 1;
    }
    proof {
        assert(entries@.take(i as int) == entries@);
    }
    Ok(rules)
}

/// The complaint about a prefix of the entries is the complaint about all
/// of them.
pub proof fn lemma_rules_of_fails_on(entries: Seq<ParamValue>, n: int)
    requires
        0 <= n <= entries.len(),
        rules_of(entries.take(n)) is Err,
    ensures
        rules_of(entries) == rules_of(entries.take(n)),
    decreases entries.len() - n,
{
    if n < entries.len() {
        assert(entries.take(n + 1).drop_last() == entries.take(n));
        lemma_rules_of_fails_on(entries, n + 1);
    } else {
        assert(entries.take(n) == entries);
    }
}

impl LookerUpStrategy {
    /// The number of moves of each side that the table is keyed on.
    pub closed spec fn history_length(&self) -> u64 {
        self.history_length
    }

    /// The lines of the table, in the order in which they were given.
    pub closed spec fn rules(&self) -> Seq<RuleView> {
        rules_view(self.rules@)
    }

    /// A strategy with an empty table and windows of length zero: it
    /// cooperates until it is configured.
    pub fn new() -> (fresh: Self)
        ensures
            fresh.history_length() == 0,
            fresh.rules() == Seq::<RuleView>::empty(),
    {
        let fresh = LookerUpStrategy { rules: Vec::new(), history_length: 0 };
        proof {
            assert(fresh.rules() == Seq::<RuleView>::empty());
        }
        fresh
    }

    /// The move that the strategy answers two histories with.
    pub open spec fn answer(&self, own: Seq<Move>, opponent: Seq<Move>) -> Move {
        if own.len() < self.history_length() || opponent.len() < self.history_length() {
            Move::Cooperate
        } else {
            looked_up(
                self.rules(),
                recent(own, self.history_length() as int),
                recent(opponent, self.history_length() as int),
            )
        }
    }
}

impl Strategy for LookerUpStrategy {
    open spec fn valid(&self) -> bool {
        true
    }

    open spec fn allows(
        pre: Self,
        own: Seq<Move>,
        opponent: Seq<Move>,
        post: Self,
        chosen: Move,
    ) -> bool {
        post == pre && chosen == pre.answer(own, opponent)
    }

    open spec fn configures(
        pre: Self,
        params: ParamValue,
        post: Self,
        outcome: Result<(), String>,
    ) -> bool {
        match lookup_settings(params) {
            Ok((length, rules)) => outcome is Ok && post.history_length() == length && post.rules()
                == rules,
            Err(complaint) => post == pre && rejected_with(outcome, complaint),
        }
    }

    open spec fn labelled(&self, text: Seq<char>) -> bool {
        text == "Looker Up"@
    }

    fn next_move(&mut self, own_history: &[Move], opponent_history: &[Move]) -> (chosen: Move) {
        if (own_history.len() as u64) < self.history_length || (opponent_history.len() as u64)
            < self.history_length {
            return Move::Cooperate;
        }
        let width = self.history_length as usize;
        let mut i: usize = self.rules.len();
        proof {
            assert(self.rules().take(i as int) == self.rules());
        }
        while i > 0
            invariant
                i <= self.rules@.len(),
                width == self.history_length(),
                width <= own_history@.len(),
                width <= opponent_history@.len(),
                self.rules() == rules_view(self.rules@),
                looked_up(
                    self.rules(),
                    recent(own_history@, width as int),
                    recent(opponent_history@, width as int),
                ) == looked_up(
                    self.rules().take(i as int),
                    recent(own_history@, width as int),
                    recent(opponent_history@, width as int),
                ),
            decreases i,
        {
            i -= 1;
            proof {
                assert(self.rules().take(i + 1).drop_last() == self.rules().take(i as int));
                assert(self.rules().take(i + 1).last() == self.rules@[i as int]@);
            }
            if ends_with(own_history, width, &self.rules[i].own) && ends_with(
                opponent_history,
                width,
                &self.rules[i].opponent,
            ) {
                return self.rules[i].response;
            }
        }
        Move::Cooperate
    }

    fn set_parameters(&mut self, params: &ParamValue) -> (outcome: Result<(), String>) {
        let history_length = match params.get("history_length") {
            Some(value) => match value.as_u64() {
                Some(n) => n,
                None => {
                    return Err(owned("Missing or invalid 'history_length'"));
                },
            },
            None => {
                return Err(owned("Missing or invalid 'history_length'"));
            },
        };
        let table = match params.get("lookup_table") {
            Some(value) => match value.as_list() {
                Some(items) => items,
                None => {
                    return Err(owned("Missing or invalid 'lookup_table'"));
                },
            },
            None => {
                return Err(owned("Missing or invalid 'lookup_table'"));
            },
        };
        match read_rules(table) {
            Ok(rules) => {
                self.rules = rules;
                self.history_length = history_length;
                Ok(())
            },
            Err(complaint) => Err(complaint),
        }
    }

    fn describe(&self) -> (label: String) {
        owned("Looker Up")
    }
}

} // verus!
