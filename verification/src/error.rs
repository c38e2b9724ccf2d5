//! The failures that the library reports. All of them are detected before
//! a match starts.

use vstd::prelude::*;
use vstd::string::StringExecFns;
use crate::text::owned;

verus! {

/// Why a strategy could not be resolved or a match could not be played.
#[derive(Debug)]
pub enum SimulationError {
    /// No registered strategy answers to the identifier. `known` lists the
    /// canonical names of all registered strategies, in the order of their
    /// registration.
    UnknownStrategy { requested: String, known: Vec<String> },
    /// A configuration was given for a strategy that takes none.
    UnsupportedConfiguration { strategy: String },
    /// The strategy rejected the configuration, for the reason given.
    InvalidConfiguration { reason: String },
    /// A match of zero rounds was asked for.
    InvalidRoundCount,
}

/// The items of `names`, separated by a comma and a space.
pub open spec fn comma_separated(names: Seq<String>) -> Seq<char>
    decreases names.len(),
{
    if names.len() == 0 {
        Seq::empty()
    } else if names.len() == 1 {
        names[0]@
    } else {
        comma_separated(names.drop_last()) + ", "@ + names.last()@
    }
}

/// Writes the items of `names`, separated by a comma and a space.
pub fn join_names(names: &Vec<String>) -> (joined: String)
    ensures
        joined@ == comma_separated(names@),
{
    let mut joined = String::new();
    let mut i: usize = 0;
    proof {
        assert(names@.take(0) == Seq::<String>::empty());
    }
    while i < names.len()
        invariant
            i <= names@.len(),
            joined@ == comma_separated(names@.take(i as int)),
        decreases names@.len() - i,
    {
        proof {
            assert(names@.take(i + 1).drop_last() == names@.take(i as int));
            assert(names@.take(i + 1).last() == names@[i as int]);
            if i == 0 {
                assert(names@.take(1)[0] == names@[0]);
                assert(Seq::<char>::empty() + names@[0]@ == names@[0]@);
            }
        }
        if i > 0 {
            joined.append(", ");
        }
        joined.append(names[i].as_str());
        i += 1;
    }
    proof {
        assert(names@.take(i as int) == names@);
    }
    joined
}

impl SimulationError {
    /// The failure in words.
    pub open spec fn message_spec(self) -> Seq<char> {
        match self {
            SimulationError::UnknownStrategy { requested, known } => "Unknown strategy: '"@
                + requested@ + "'. Available strategies are: "@ + comma_separated(known@),
            SimulationError::UnsupportedConfiguration { strategy } => "Strategy '"@ + strategy@
                + "' does not accept parameters"@,
            SimulationError::InvalidConfiguration { reason } => reason@,
            SimulationError::InvalidRoundCount => "Iterations should be > 0"@,
        }
    }

    /// Writes the failure in words, for a caller to show.
    pub fn message(&self) -> (text: String)
        ensures
            text@ == self.message_spec(),
    {
        match self {
            SimulationError::UnknownStrategy { requested, known } => {
                let mut text = owned("Unknown strategy: '");
                text.append(requested.as_str());
                text.append("'. Available strategies are: ");
                let names = join_names(known);
                text.append(names.as_str());
                text
            },
            SimulationError::UnsupportedConfiguration { strategy } => {
                let mut text = owned("Strategy '");
                text.append(strategy.as_str());
                text.append("' does not accept parameters");
                text
            },
            SimulationError::InvalidConfiguration { reason } => owned(reason.as_str()),
            SimulationError::InvalidRoundCount => owned("Iterations should be > 0"),
        }
    }
}

} // verus!
