//! Exact amounts of money.
//!
//! An amount is a whole number of ticks, the smallest share of a betting unit
//! that the table accounts for. Doubling and halving are exact or refused:
//! nothing is ever rounded.

use vstd::prelude::*;

verus! {

/// How many ticks make one betting unit.
pub const TICKS_PER_UNIT: u64 = 65536;

/// A non-negative amount of money, counted in ticks.
#[derive(Debug, PartialEq, Eq, Structural, PartialOrd, Ord, Clone, Copy, Hash)]
pub struct Amount {
    pub ticks: u64,
}

impl Amount {
    /// The amount of `ticks` ticks.
    pub fn from_ticks(ticks: u64) -> (amount: Self)
        ensures
            amount.ticks == ticks,
    {
        Self { ticks }
    }

    /// The amount of `units` whole betting units.
    pub fn from_units(units: u32) -> (amount: Self)
        ensures
            amount.ticks == units * TICKS_PER_UNIT,
    {
        let wide: u64 = units.into();
        Self { ticks: wide * TICKS_PER_UNIT }
    }

    /// The amount in ticks.
    pub fn ticks(&self) -> (ticks: u64)
        ensures
            ticks == self.ticks,
    {
        self.ticks
    }

    /// Twice this amount, or `None` where that is more than an amount can hold.
    pub fn doubled(&self) -> (twice: Option<Self>)
        ensures
            match twice {
                Some(amount) => amount.ticks == 2 * self.ticks,
                None => 2 * self.ticks > u64::MAX,
            },
    {
        if self.ticks > u64::MAX / 2 {
            None
        } else {
            Some(Self { ticks: self.ticks * 2 })
        }
    }

    /// Half this amount, or `None` where the amount is an odd number of ticks
    /// and so has no exact half.
    pub fn halved(&self) -> (half: Option<Self>)
        ensures
            match half {
                Some(amount) => 2 * amount.ticks == self.ticks,
                None => self.ticks % 2 == 1,
            },
    {
        if self.ticks % 2 == 0 {
            Some(Self { ticks: self.ticks / 2 })
        } else {
            None
        }
    }
}

} // verus!
