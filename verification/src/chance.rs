//! Chance: probabilities held as exact ratios, and the random draw.

use vstd::prelude::*;
use vstd::string::StringExecFns;
use rand::Rng;
use crate::payoff::Move;
use crate::text::{decimal, decimal_text};

verus! {

/// A rational number between zero and one, held as `numerator / denominator`.
///
/// Every value satisfies `0 < denominator` and `numerator <= denominator`.
#[derive(Clone, Copy, Debug)]
pub struct UnitRatio {
    numerator: u32,
    denominator: u32,
}

/// Draws from the thread-local generator of `rand` by `Rng::random_ratio`:
/// the result is true with a chance of `numerator` in `denominator`.
///
/// `random_ratio` panics when `denominator` is zero or `numerator` exceeds
/// it, so both are required away. Its documentation guarantees `true` when
/// the two are equal and `false` when `numerator` is zero; nothing else is
/// claimed of the outcome.
#[verifier::external_body]
fn random_ratio(numerator: u32, denominator: u32) -> (hit: bool)
    requires
        0 < denominator,
        numerator <= denominator,
    ensures
        numerator == denominator ==> hit,
        numerator == 0 ==> !hit,
{
    rand::rng().random_ratio(numerator, denominator)
}

/// What a draw with a chance of `numerator` in `denominator` may give:
/// anything, except that certainty always hits and impossibility never
/// does.
pub open spec fn may_hit(numerator: nat, denominator: nat, hit: bool) -> bool {
    (numerator == denominator ==> hit) && (numerator == 0 ==> !hit)
}

/// What a draw with the probability `ratio` may give: anything, except
/// that certainty always hits and impossibility never does.
pub open spec fn may_draw(ratio: UnitRatio, hit: bool) -> bool {
    (ratio.is_certain() ==> hit) && (ratio.is_impossible() ==> !hit)
}

/// The move that a draw stands for: `Cooperate` for a hit, `Defect` for a
/// miss.
pub open spec fn move_for(hit: bool) -> Move {
    if hit {
        Move::Cooperate
    } else {
        Move::Defect
    }
}

/// Turns the outcome of a draw into a move.
pub fn cooperate_on(hit: bool) -> (chosen: Move)
    ensures
        chosen == move_for(hit),
{
    if hit {
        Move::Cooperate
    } else {
        Move::Defect
    }
}

impl UnitRatio {
    #[verifier::type_invariant]
    spec fn well_formed(self) -> bool {
        0 < self.denominator && self.numerator <= self.denominator
    }

    /// The numerator.
    pub closed spec fn numerator_spec(self) -> nat {
        self.numerator as nat
    }

    /// The denominator.
    pub closed spec fn denominator_spec(self) -> nat {
        self.denominator as nat
    }

    /// Whether `numerator / denominator` is a ratio between zero and one.
    pub open spec fn admits(numerator: int, denominator: int) -> bool {
        0 < denominator && 0 <= numerator <= denominator
    }

    /// The ratio is one: a draw always hits.
    pub open spec fn is_certain(self) -> bool {
        self.numerator_spec() == self.denominator_spec()
    }

    /// The ratio is zero: a draw never hits.
    pub open spec fn is_impossible(self) -> bool {
        self.numerator_spec() == 0
    }

    /// The ratio `numerator / denominator`, or `None` when the denominator
    /// is zero or the numerator exceeds it.
    pub fn new(numerator: u32, denominator: u32) -> (made: Option<UnitRatio>)
        ensures
            made is Some <==> Self::admits(numerator as int, denominator as int),
            made matches Some(ratio) ==> ratio.numerator_spec() == numerator
                && ratio.denominator_spec() == denominator,
    {
        if denominator == 0 || numerator > denominator {
            None
        } else {
            Some(UnitRatio { numerator, denominator })
        }
    }

    /// The numerator.
    pub fn numerator(&self) -> (n: u32)
        ensures
            n == self.numerator_spec(),
            n <= self.denominator_spec(),
    {
        proof {
            use_type_invariant(self);
        }
        self.numerator
    }

    /// The denominator, which is never zero.
    pub fn denominator(&self) -> (d: u32)
        ensures
            d == self.denominator_spec(),
            d > 0,
    {
        proof {
            use_type_invariant(self);
        }
        self.denominator
    }

    /// The ratio in writing: numerator, a slash, denominator.
    pub open spec fn notation(self) -> Seq<char> {
        decimal(self.numerator_spec()) + "/"@ + decimal(self.denominator_spec())
    }

    /// Writes the ratio as numerator, a slash, denominator.
    pub fn to_text(&self) -> (text: String)
        ensures
            text@ == self.notation(),
    {
        let mut text = decimal_text(self.numerator as u64);
        text.append("/");
        let below = decimal_text(self.denominator as u64);
        text.append(below.as_str());
        text
    }

    /// Whether the share `part / whole` is greater than this ratio. The
    /// comparison is made on the products, so a `whole` of zero reads as a
    /// share that exceeds every ratio as soon as `part` is positive.
    pub open spec fn exceeded_by(self, part: nat, whole: nat) -> bool {
        part * self.denominator_spec() > self.numerator_spec() * whole
    }

    /// Whether the share `part / whole` is greater than this ratio,
    /// compared exactly.
    pub fn is_exceeded_by(&self, part: usize, whole: usize) -> (exceeded: bool)
        ensures
            exceeded == self.exceeded_by(part as nat, whole as nat),
    {
        proof {
            use_type_invariant(self);
            assert(part * self.denominator <= 0xFFFF_FFFF_FFFF_FFFF * 0xFFFF_FFFF)
                by (nonlinear_arith)
                requires
                    0 <= part <= 0xFFFF_FFFF_FFFF_FFFF,
                    0 <= self.denominator <= 0xFFFF_FFFF,
            ;
            assert(self.numerator * whole <= 0xFFFF_FFFF * 0xFFFF_FFFF_FFFF_FFFF)
                by (nonlinear_arith)
                requires
                    0 <= whole <= 0xFFFF_FFFF_FFFF_FFFF,
                    0 <= self.numerator <= 0xFFFF_FFFF,
            ;
        }
        (part as u128) * (self.denominator as u128) > (self.numerator as u128) * (whole as u128)
    }

    /// One random draw that hits with this probability. A certain ratio
    /// always hits and an impossible one never does; otherwise either
    /// outcome may come back.
    pub fn draw(&self) -> (hit: bool)
        ensures
            may_draw(*self, hit),
    {
        proof {
            use_type_invariant(self);
        }
        random_ratio(self.numerator, self.denominator)
    }
}

} // verus!
