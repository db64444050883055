//! The fee percentage: a fixed-point decimal in `[0, 100]`.
//!
//! A rate is stored as an integer count of atomic units, with 18 decimal
//! places: `1` percent is `RATE_SCALE` atomics, `100` percent is
//! `100 * RATE_SCALE` atomics.

use vstd::prelude::*;

verus! {

/// Atomics per whole percentage point (18 decimal places).
pub const RATE_SCALE: u128 = 1_000_000_000_000_000_000;

/// A fixed-point percentage with 18 decimal places.
#[derive(Clone, Copy, Debug, PartialEq, Eq, Structural)]
pub struct FeeRate {
    atomics: u128,
}

impl FeeRate {
    /// The rate as a count of atomic units.
    pub closed spec fn value(self) -> u128 {
        self.atomics
    }

    /// A valid rate does not exceed 100 percent.
    pub open spec fn valid(self) -> bool {
        self.value() <= 100 * RATE_SCALE
    }

    /// The rate of `p` whole percentage points.
    pub fn from_percent(p: u64) -> (r: Self)
        requires
            p <= 100,
        ensures
            r.value() == p * RATE_SCALE,
            r.valid(),
    {
        FeeRate { atomics: (p as u128) * RATE_SCALE }
    }

    /// The rate of `a` atomic units, if it does not exceed 100 percent.
    pub fn from_atomics(a: u128) -> (r: Option<Self>)
        ensures
            match r {
                Some(fr) => fr.value() == a && fr.valid(),
                None => a > 100 * RATE_SCALE,
            },
    {
        if a <= 100 * RATE_SCALE {
            Some(FeeRate { atomics: a })
        } else {
            None
        }
    }

    /// The stored count of atomic units.
    pub fn atomics(&self) -> (r: u128)
        ensures
            r == self.value(),
    {
        self.atomics
    }
}

} // verus!
