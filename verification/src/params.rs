//! Configuration payloads: a loosely typed tree of values that strategies
//! read their parameters from.

use vstd::prelude::*;
use crate::chance::UnitRatio;
use crate::text::same_text;

verus! {

/// One value of a configuration payload.
///
/// Numbers come in two forms: a non-negative whole number, and a fraction
/// `numerator / denominator` for everything else (a negative numerator
/// makes a negative number).
#[derive(Debug)]
pub enum ParamValue {
    Null,
    Bool(bool),
    Unsigned(u64),
    Fraction { numerator: i64, denominator: u32 },
    Text(String),
    List(Vec<ParamValue>),
    Record(Vec<(String, ParamValue)>),
}

/// The value of the first entry whose key is `key`.
pub open spec fn first_with_key(entries: Seq<(String, ParamValue)>, key: Seq<char>) -> Option<
    ParamValue,
>
    decreases entries.len(),
{
    if entries.len() == 0 {
        None
    } else if entries[0].0@ == key {
        Some(entries[0].1)
    } else {
        first_with_key(entries.skip(1), key)
    }
}

/// The value of the first entry of `entries` whose key is `key`.
fn find_entry<'a>(entries: &'a Vec<(String, ParamValue)>, key: &str) -> (found: Option<
    &'a ParamValue,
>)
    ensures
        found is Some <==> first_with_key(entries@, key@) is Some,
        found matches Some(value) ==> first_with_key(entries@, key@) == Some(*value),
{
    let mut i: usize = 0;
    proof {
        assert(entries@.skip(0) == entries@);
    }
    while i < entries.len()
        invariant
            i <= entries@.len(),
            first_with_key(entries@, key@) == first_with_key(entries@.skip(i as int), key@),
        decreases entries@.len() - i,
    {
        proof {
            assert(entries@.skip(i as int)[0] == entries@[i as int]);
            assert(entries@.skip(i as int).skip(1) == entries@.skip(i + 1));
        }
        if same_text(entries[i].0.as_str(), key) {
            return Some(&entries[i].1);
        }
        i += 1;
    }
    None
}

impl ParamValue {
    /// The member named `key` of a record; `None` for a missing key and for
    /// every value that is not a record.
    pub open spec fn member(self, key: Seq<char>) -> Option<ParamValue> {
        match self {
            ParamValue::Record(entries) => first_with_key(entries@, key),
            _ => None,
        }
    }

    /// The whole number that the value holds.
    pub open spec fn unsigned(self) -> Option<u64> {
        match self {
            ParamValue::Unsigned(n) => Some(n),
            _ => None,
        }
    }

    /// The characters that the value holds.
    pub open spec fn text(self) -> Option<Seq<char>> {
        match self {
            ParamValue::Text(s) => Some(s@),
            _ => None,
        }
    }

    /// The items that the value holds.
    pub open spec fn items(self) -> Option<Seq<ParamValue>> {
        match self {
            ParamValue::List(items) => Some(items@),
            _ => None,
        }
    }

    /// The number that the value holds, as `(numerator, denominator)`, when
    /// it lies between zero and one: the whole numbers 0 and 1, and every
    /// fraction with `0 <= numerator <= denominator` and a positive
    /// denominator.
    pub open spec fn unit_ratio(self) -> Option<(nat, nat)> {
        match self {
            ParamValue::Unsigned(n) => if n <= 1 {
                Some((n as nat, 1nat))
            } else {
                None
            },
            ParamValue::Fraction { numerator, denominator } => if UnitRatio::admits(
                numerator as int,
                denominator as int,
            ) {
                Some((numerator as nat, denominator as nat))
            } else {
                None
            },
            _ => None,
        }
    }

    /// The ratio between zero and one that a record holds under `key`.
    pub open spec fn ratio_under(self, key: Seq<char>) -> Option<(nat, nat)> {
        match self.member(key) {
            Some(value) => value.unit_ratio(),
            None => None,
        }
    }

    /// Reads the ratio between zero and one that a record holds under
    /// `key`; `None` where the key is missing or holds anything else.
    pub fn get_unit_ratio(&self, key: &str) -> (ratio: Option<UnitRatio>)
        ensures
            ratio is Some <==> self.ratio_under(key@) is Some,
            ratio matches Some(r) ==> self.ratio_under(key@) == Some(
                (r.numerator_spec(), r.denominator_spec()),
            ),
    {
        match self.get(key) {
            Some(value) => value.as_unit_ratio(),
            None => None,
        }
    }

    /// Looks a key up in a record.
    pub fn get(&self, key: &str) -> (found: Option<&ParamValue>)
        ensures
            found is Some <==> self.member(key@) is Some,
            found matches Some(value) ==> self.member(key@) == Some(*value),
    {
        match self {
            ParamValue::Record(entries) => find_entry(entries, key),
            _ => None,
        }
    }

    /// The whole number, if the value is one.
    pub fn as_u64(&self) -> (n: Option<u64>)
        ensures
            n == self.unsigned(),
    {
        match self {
            ParamValue::Unsigned(n) => Some(*n),
            _ => None,
        }
    }

    /// The text, if the value is one.
    pub fn as_str(&self) -> (s: Option<&str>)
        ensures
            s is Some <==> self.text() is Some,
            s matches Some(t) ==> self.text() == Some(t@),
    {
        match self {
            ParamValue::Text(s) => Some(s.as_str()),
            _ => None,
        }
    }

    /// The items, if the value is a list.
    pub fn as_list(&self) -> (items: Option<&Vec<ParamValue>>)
        ensures
            items is Some <==> self.items() is Some,
            items matches Some(v) ==> self.items() == Some(v@),
    {
        match self {
            ParamValue::List(items) => Some(items),
            _ => None,
        }
    }

    /// The number as a ratio between zero and one, if the value is such a
    /// number.
    pub fn as_unit_ratio(&self) -> (ratio: Option<UnitRatio>)
        ensures
            ratio is Some <==> self.unit_ratio() is Some,
            ratio matches Some(r) ==> self.unit_ratio() == Some(
                (r.numerator_spec(), r.denominator_spec()),
            ),
    {
        match self {
            ParamValue::Unsigned(n) => {
                if *n <= 1 {
                    UnitRatio::new(*n as u32, 1)
                } else {
                    None
                }
            },
            ParamValue::Fraction { numerator, denominator } => {
                if *numerator < 0 || *numerator > *denominator as i64 {
                    None
                } else {
                    UnitRatio::new(*numerator as u32, *denominator)
                }
            },
            _ => None,
        }
    }
}

} // verus!
