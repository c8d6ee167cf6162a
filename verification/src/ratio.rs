//! Exact quotients. The library never divides where a fraction would be
//! lost: it hands out numerator and denominator, and the caller decides how
//! to show them.

use vstd::prelude::*;

verus! {

/// The quotient `num / den` of two whole numbers, kept as the pair.
///
/// Two ratios are equal when both parts are equal: nothing is reduced to
/// lowest terms. The type admits a denominator of zero, for which there is
/// no quotient ([`Ratio::floor`] answers `None`); the statistics hand out
/// no such ratio.
#[derive(Clone, Copy, Debug, PartialEq, Eq, Structural)]
pub struct Ratio {
    pub num: u128,
    pub den: u64,
}

impl Ratio {
    /// The ratio `0 / 1`.
    pub open spec fn zero() -> Ratio {
        Ratio { num: 0, den: 1 }
    }

    /// The ratio `1 / 1`.
    pub open spec fn one() -> Ratio {
        Ratio { num: 1, den: 1 }
    }

    /// `num / den` as whole number, rounded down; `None` where `den` is zero.
    pub open spec fn spec_floor(self) -> Option<u128> {
        if self.den == 0 {
            None
        } else {
            Some(self.num / (self.den as u128))
        }
    }

    /// The quotient rounded down to a whole number, or `None` where the
    /// denominator is zero.
    pub fn floor(&self) -> (q: Option<u128>)
        ensures
            q == self.spec_floor(),
    {
        if self.den == 0 {
            None
        } else {
            Some(self.num / (self.den as u128))
        }
    }
}

} // verus!
