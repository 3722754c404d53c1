//! Exact quotients.
//!
//! Some figures are quotients of two whole numbers and seldom whole
//! themselves: a rate of transactions per second, the part of an epoch that
//! lies behind. They are kept as the pair they come from, so that nothing is
//! rounded before the figure is shown.

use vstd::prelude::*;

verus! {

/// A quotient of two whole numbers, kept exactly. With a denominator of
/// zero it stands for no number.
#[derive(Clone, Copy, Debug, PartialEq, Eq, Structural)]
pub struct Ratio {
    /// The number that is divided.
    pub numerator: u64,
    /// The number that divides.
    pub denominator: u64,
}

impl Ratio {
    /// The quotient times `scale`, rounded down, where the denominator is
    /// not zero.
    pub open spec fn scaled_floor(self, scale: nat) -> Option<nat> {
        if self.denominator == 0 {
            None
        } else {
            Some((scale * self.numerator as nat) / (self.denominator as nat))
        }
    }

    /// The quotient in units of one `scale`-th, rounded down: with a scale
    /// of 1000 the result counts thousandths. There is no result where the
    /// denominator is zero.
    pub fn scaled(&self, scale: u64) -> (units: Option<u128>)
        ensures
            units is None <==> self.denominator == 0,
            (match units {
                Some(u) => Some(u as nat),
                None => None,
            }) == self.scaled_floor(scale as nat),
    {
        if self.denominator == 0 {
            None
        } else {
            assert(scale * self.numerator <= u64::MAX * u64::MAX) by (nonlinear_arith)
                requires
                    scale <= u64::MAX,
                    self.numerator <= u64::MAX,
            ;
            let product: u128 = (scale as u128) * (self.numerator as u128);
            Some(product / (self.denominator as u128))
        }
    }
}

} // verus!
