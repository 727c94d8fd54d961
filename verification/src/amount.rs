//! Fixed-point monetary amounts.
//!
//! An [`Amount`] stores a signed count of ten-thousandths of a currency
//! unit, so every value has exactly four fractional decimal digits.

use vstd::math::abs;
use vstd::prelude::*;

verus! {

/// Number of ten-thousandths in one whole currency unit.
pub const UNITS_PER_WHOLE: i64 = 10000;

/// A signed fixed-point decimal with four fractional digits, stored as a
/// count of ten-thousandths of a currency unit.
#[derive(Debug, Clone, Copy, PartialEq, Eq, Structural)]
pub struct Amount {
    units: i64,
}

impl View for Amount {
    type V = int;

    closed spec fn view(&self) -> int {
        self.units as int
    }
}

impl Amount {
    /// The zero amount.
    pub fn zero() -> (r: Amount)
        ensures
            r@ == 0,
    {
        Amount { units: 0 }
    }

    /// Builds an amount from a raw count of ten-thousandths.
    pub fn from_units(units: i64) -> (r: Amount)
        ensures
            r@ == units,
    {
        Amount { units }
    }

    /// The raw count of ten-thousandths this amount stands for.
    pub fn units(&self) -> (r: i64)
        ensures
            r == self@,
    {
        self.units
    }

    /// Splits the amount for rendering with exactly four fractional
    /// digits: a sign, the whole currency units, and the remaining count
    /// of ten-thousandths, so that the value reads
    /// `sign whole.fraction` with the fraction zero-padded to four digits.
    pub fn decompose(&self) -> (r: (bool, u64, u64))
        ensures
            r.1 == abs(self@) / (UNITS_PER_WHOLE as nat),
            r.2 == abs(self@) % (UNITS_PER_WHOLE as nat),
            r.2 < UNITS_PER_WHOLE,
            r.0 == (self@ < 0),
            r.0 ==> self@ == -(r.1 * UNITS_PER_WHOLE + r.2),
            !r.0 ==> self@ == r.1 * UNITS_PER_WHOLE + r.2,
    {
        let negative = self.units < 0;
        let magnitude: u64 = if self.units < 0 {
            (-(self.units as i128)) as u64
        } else {
            self.units as u64
        };
        let whole = magnitude / (UNITS_PER_WHOLE as u64);
        let fraction = magnitude % (UNITS_PER_WHOLE as u64);
        proof {
            vstd::arithmetic::div_mod::lemma_fundamental_div_mod(
                magnitude as int,
                UNITS_PER_WHOLE as int,
            );
        }
        (negative, whole, fraction)
    }
}

} // verus!
