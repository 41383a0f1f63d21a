//! Fixed-point representation of normalized parameter values.
//!
//! A parameter value is a scalar in the closed range from zero to one full
//! unit. It is stored as a `u64` holding the value scaled by [`UNIT`], so
//! `0` stands for the low end of the range and [`UNIT`] for the high end.

use vstd::prelude::*;

verus! {

/// The fixed-point representation of the value one (the top of the range).
pub const UNIT: u64 = 0x1_0000_0000;

/// Half of [`UNIT`], used when rounding to the nearest grid point.
pub const HALF_UNIT: u64 = 0x8000_0000;

/// Clamps a mathematical integer into the representable range `[0, UNIT]`.
pub open spec fn clamp_unit(v: int) -> int {
    if v < 0 {
        0
    } else if v > UNIT {
        UNIT as int
    } else {
        v
    }
}

/// Clamping is idempotent: clamping twice equals clamping once.
pub proof fn lemma_clamp_unit_idempotent(v: int)
    ensures
        clamp_unit(clamp_unit(v)) == clamp_unit(v),
{
}

/// Clamps a `u64` value into `[0, UNIT]`.
pub fn clamp_normal(v: u64) -> (r: u64)
    ensures
        r == clamp_unit(v as int),
{
    if v > UNIT {
        UNIT
    } else {
        v
    }
}

} // verus!
