//! Exact fixed-point decimal arithmetic.
//!
//! Prices, profits and profit-and-loss amounts are stored as a signed count
//! of micro-units (`SCALE` units per whole 1.0), so every comparison against
//! a threshold is exact; no value in the core is ever a binary float.

use vstd::prelude::*;

verus! {

/// Number of units in 1.0: six decimal places.
pub const SCALE: i128 = 1_000_000;

/// A fixed-point decimal amount: `units / SCALE` in ordinary notation.
#[derive(Debug, Clone, Copy, PartialEq, Eq, Structural)]
pub struct Dec {
    pub units: i128,
}

impl Dec {
    /// The amount of `units` micro-units.
    pub fn new(units: i128) -> (r: Dec)
        ensures
            r.units == units,
    {
        Dec { units }
    }

    /// Zero.
    pub fn zero() -> (r: Dec)
        ensures
            r.units == 0,
    {
        Dec { units: 0 }
    }

    /// A whole number of 1.0 steps.
    pub fn from_int(n: i64) -> (r: Dec)
        ensures
            r.units == n * SCALE,
    {
        Dec { units: (n as i128) * SCALE }
    }

    /// True when the amount lies in the unit interval `[0, 1]`,
    /// the range of a venue's price for a binary outcome.
    pub fn is_price(&self) -> (r: bool)
        ensures
            r == valid_price(*self),
    {
        0 <= self.units && self.units <= SCALE
    }

    /// The midpoint of two unit-interval prices, rounded down to a
    /// micro-unit; itself a unit-interval price.
    pub fn midpoint(&self, other: &Dec) -> (r: Dec)
        requires
            valid_price(*self),
            valid_price(*other),
        ensures
            r.units == (self.units + other.units) / 2,
            valid_price(r),
    {
        let sum: u128 = (self.units as u128) + (other.units as u128);
        let mid: u128 = sum / 2;
        proof {
            let s = self.units + other.units;
            vstd::arithmetic::div_mod::lemma_div_pos_is_pos(s, 2);
            vstd::arithmetic::div_mod::lemma_div_is_ordered(s, 2 * SCALE, 2);
            vstd::arithmetic::div_mod::lemma_div_multiples_vanish(SCALE as int, 2);
        }
        Dec { units: mid as i128 }
    }
}

/// A well-formed venue price: a decimal in `[0, 1]`.
pub open spec fn valid_price(d: Dec) -> bool {
    0 <= d.units <= SCALE
}

} // verus!
