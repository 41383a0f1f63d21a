//! Conversions between normalized values and discrete step indices.
//!
//! A stepped parameter restricts its normalized value to `num_steps + 1`
//! evenly spaced grid points. `num_steps == 0` means "no quantization
//! effect": every conversion yields zero rather than dividing by zero.

use vstd::prelude::*;

use crate::normal::{HALF_UNIT, UNIT};
use vstd::arithmetic::div_mod::{
    lemma_div_pos_is_pos, lemma_fundamental_div_mod, lemma_fundamental_div_mod_converse,
    lemma_mod_bound,
};
use vstd::arithmetic::mul::{lemma_mul_inequality, lemma_mul_is_commutative};

verus! {

/// The grid point for step `value` of a parameter with `num_steps` steps:
/// zero at the bottom, [`UNIT`] at or above the top step, and the nearest
/// fixed-point representation of `value / num_steps` in between.
pub open spec fn spec_quantized_to_normal(value: int, num_steps: int) -> int {
    if value <= 0 || num_steps <= 0 {
        0
    } else if value >= num_steps {
        UNIT as int
    } else {
        (value * UNIT + num_steps / 2) / num_steps
    }
}

/// The step index nearest to a normalized value: zero at or below the
/// bottom of the range, `num_steps` at or above the top, and the rounded
/// value of `normal * num_steps / UNIT` in between.
pub open spec fn spec_normal_to_quantized(normal: int, num_steps: int) -> int {
    if normal <= 0 || num_steps <= 0 {
        0
    } else if normal >= UNIT {
        num_steps
    } else {
        (normal * num_steps + HALF_UNIT) / (UNIT as int)
    }
}

/// A normalized value moved onto its nearest grid point.
pub open spec fn spec_snap_normal(normal: int, num_steps: int) -> int {
    spec_quantized_to_normal(spec_normal_to_quantized(normal, num_steps), num_steps)
}

/// Grid points always lie inside the representable range.
pub proof fn lemma_quantized_to_normal_bounds(value: int, num_steps: int)
    requires
        num_steps < UNIT,
    ensures
        0 <= spec_quantized_to_normal(value, num_steps) <= UNIT,
{
    if 0 < value < num_steps {
        let u = UNIT as int;
        let n = num_steps;
        let r = value * u + n / 2;
        lemma_div_pos_is_pos(r, n);
        lemma_fundamental_div_mod(r, n);
        lemma_mod_bound(r, n);
        let w = r / n;
        assert(value * u <= (n - 1) * u) by {
            lemma_mul_inequality(value, n - 1, u);
        }
        assert(n * w <= (n - 1) * u + n / 2);
        assert(n * w < n * u);
        assert(w <= u) by (nonlinear_arith)
            requires
                n >= 1,
                n * w < n * u,
        ;
    }
}

/// The nearest step index never exceeds the step count.
pub proof fn lemma_normal_to_quantized_bounds(normal: int, num_steps: int)
    requires
        num_steps >= 0,
    ensures
        0 <= spec_normal_to_quantized(normal, num_steps) <= num_steps,
{
    if 0 < normal < UNIT && num_steps > 0 {
        let u = UNIT as int;
        let n = num_steps;
        let r = normal * n + HALF_UNIT;
        lemma_div_pos_is_pos(r, n);
        lemma_fundamental_div_mod(r, u);
        lemma_mod_bound(r, u);
        let w = r / u;
        assert(normal * n <= (u - 1) * n) by {
            lemma_mul_inequality(normal, u - 1, n);
        }
        assert(u * w <= (u - 1) * n + HALF_UNIT);
        assert(u * w < u * (n + 1)) by (nonlinear_arith)
            requires
                u == UNIT as int,
                n >= 1,
                u * w <= (u - 1) * n + HALF_UNIT,
        ;
        assert(w <= n) by (nonlinear_arith)
            requires
                u >= 1,
                u * w < u * (n + 1),
        ;
        lemma_div_pos_is_pos(r, u);
    }
}

/// Converting a step index to its grid point and back recovers the index
/// exactly, for any step count below [`UNIT`].
pub proof fn lemma_quantize_round_trip(value: int, num_steps: int)
    requires
        0 <= value <= num_steps,
        num_steps < UNIT,
    ensures
        spec_normal_to_quantized(spec_quantized_to_normal(value, num_steps), num_steps) == value,
{
    let u = UNIT as int;
    let n = num_steps;
    let v = value;
    if n <= 0 || v == 0 {
        // the grid point is 0 and converts back to step 0 == value
    } else if v == n {
        // the grid point is UNIT and converts back to num_steps
    } else {
        let h = n / 2;
        let r = v * u + h;
        lemma_fundamental_div_mod(r, n);
        lemma_mod_bound(r, n);
        let w = r / n;
        // 1 <= w < UNIT, so the middle branch of the conversion applies
        assert(n * w >= r - (n - 1));
        assert(w >= 1) by (nonlinear_arith)
            requires
                n >= 1,
                n * w >= 2,
        ;
        assert(v * u <= (n - 1) * u) by {
            lemma_mul_inequality(v, n - 1, u);
        }
        assert(n * w < n * u);
        assert(w < u) by (nonlinear_arith)
            requires
                n >= 1,
                n * w < n * u,
        ;
        assert(spec_quantized_to_normal(v, n) == w);
        // rounding w * n back down lands in the same bucket as v * UNIT
        let s = h + (HALF_UNIT as int) - (r % n);
        lemma_mul_is_commutative(w, n);
        assert(w * n + HALF_UNIT == v * u + s);
        assert(0 <= s < u);
        lemma_fundamental_div_mod_converse(w * n + HALF_UNIT, u, v, s);
        assert(spec_normal_to_quantized(w, n) == v);
    }
}

/// Snapping is idempotent: snapping a value twice equals snapping it once.
pub proof fn lemma_snap_normal_idempotent(normal: int, num_steps: int)
    requires
        num_steps < UNIT,
    ensures
        spec_snap_normal(spec_snap_normal(normal, num_steps), num_steps) == spec_snap_normal(
            normal,
            num_steps,
        ),
{
    if num_steps <= 0 {
        // both sides are zero
    } else {
        let q = spec_normal_to_quantized(normal, num_steps);
        lemma_normal_to_quantized_bounds(normal, num_steps);
        lemma_quantize_round_trip(q, num_steps);
    }
}

/// A step count of zero maps everything to zero; otherwise the extremes of
/// the range map to the extreme step indices.
pub proof fn lemma_normal_to_quantized_endpoints(num_steps: int)
    requires
        num_steps > 0,
    ensures
        spec_normal_to_quantized(0, num_steps) == 0,
        spec_normal_to_quantized(UNIT as int, num_steps) == num_steps,
{
}

/// The grid point for step `value` out of `num_steps`, as a fixed-point
/// normalized value.
pub fn param_quantized_to_normal(value: u32, num_steps: u32) -> (r: u64)
    ensures
        r == spec_quantized_to_normal(value as int, num_steps as int),
        r <= UNIT,
{
    if value == 0 || num_steps == 0 {
        0
    } else if value >= num_steps {
        UNIT
    } else {
        let n = num_steps as u128;
        proof {
            lemma_mul_inequality(value as int, 0xFFFF_FFFF, UNIT as int);
            lemma_quantized_to_normal_bounds(value as int, num_steps as int);
        }
        let q = ((value as u128) * (UNIT as u128) + n / 2) / n;
        q as u64
    }
}

/// The step index nearest to a fixed-point normalized value.
pub fn param_normal_to_quantized(normal: u64, num_steps: u32) -> (r: u32)
    ensures
        r == spec_normal_to_quantized(normal as int, num_steps as int),
        r <= num_steps,
{
    if normal == 0 || num_steps == 0 {
        0
    } else if normal >= UNIT {
        num_steps
    } else {
        proof {
            lemma_mul_inequality(normal as int, UNIT as int, num_steps as int);
            lemma_normal_to_quantized_bounds(normal as int, num_steps as int);
        }
        let q = ((normal as u128) * (num_steps as u128) + (HALF_UNIT as u128)) / (UNIT as u128);
        q as u32
    }
}

/// A fixed-point normalized value snapped to its nearest grid point.
pub fn param_snap_normal(normal: u64, num_steps: u32) -> (r: u64)
    ensures
        r == spec_snap_normal(normal as int, num_steps as int),
        r <= UNIT,
{
    param_quantized_to_normal(param_normal_to_quantized(normal, num_steps), num_steps)
}

} // verus!
