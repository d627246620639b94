//! Fixed-point quantities.
//!
//! Latitudes, longitudes, altitudes and timestamps are carried as a signed
//! count of millionths of their unit (degrees, kilometres, seconds).

use vstd::prelude::*;

verus! {

/// Millionths in one whole unit.
pub const MICROS_PER_UNIT: i64 = 1_000_000;

/// A quantity counted in millionths of its unit.
#[derive(Clone, Copy, Debug, PartialEq, Eq, Structural)]
pub struct Micros {
    /// The count of millionths.
    pub raw: i64,
}

impl Micros {
    /// The quantity as a mathematical integer count of millionths.
    pub open spec fn value(self) -> int {
        self.raw as int
    }

    /// The largest whole number of units that does not exceed the quantity.
    pub open spec fn floor(self) -> int {
        self.raw as int / (MICROS_PER_UNIT as int)
    }

    /// The quantity that holds `raw` millionths.
    pub fn from_raw(raw: i64) -> (r: Micros)
        ensures
            r.raw == raw,
    {
        Micros { raw }
    }

    /// The quantity of `units` whole units, where that fits.
    pub fn from_units(units: i64) -> (r: Option<Micros>)
        ensures
            r is Some <==> i64::MIN <= units * MICROS_PER_UNIT <= i64::MAX,
            r matches Some(m) ==> m.value() == units * MICROS_PER_UNIT,
    {
        match units.checked_mul(MICROS_PER_UNIT) {
            Some(raw) => Some(Micros { raw }),
            None => None,
        }
    }

    /// The whole part of the quantity, rounded towards minus infinity.
    pub fn whole_units(self) -> (r: i64)
        ensures
            r == self.floor(),
    {
        if self.raw >= 0 {
            self.raw / MICROS_PER_UNIT
        } else {
            (self.raw + 1) / MICROS_PER_UNIT - 1
        }
    }
}

} // verus!
