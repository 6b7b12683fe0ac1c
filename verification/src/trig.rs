//! Fixed-point sine.
//!
//! The oscillator needs `sin` at two places: the per-sample value of the
//! sine and additive waveforms, and the closed-form spectral preview of the
//! pulse waveform. Both are served by one polynomial evaluation of
//! `sin(theta)` on a quarter turn — the Taylor series through the eleventh
//! power in Horner form, computed on a nano-tick scale and rounded to the
//! nearest tick — extended to a full turn by the sine's symmetries. The
//! truncated series errs by under `6e-8` of full scale on a quarter turn
//! and the integer rounding by under one tick, so every value agrees with
//! the true sine to within one tick of `SCALE`. Every operation is exact
//! integer arithmetic, so the executable code returns precisely what the
//! specification states.

use crate::fixed::{floor_div, HALF_SCALE, SCALE};
use vstd::arithmetic::div_mod::{
    lemma_div_is_ordered, lemma_div_is_ordered_by_denominator, lemma_div_pos_is_pos,
};
use vstd::prelude::*;

verus! {

/// `pi` in fixed-point ticks, rounded to the nearest tick.
pub const PI_FP: i64 = 3_141_593;

/// Ticks of the finer scale the sine evaluation runs on: one unit is
/// `NANO` nano-ticks.
pub const NANO: i64 = 1_000_000_000;

/// `pi` in nano-ticks, rounded to the nearest nano-tick.
pub const PI_NANO: i64 = 3_141_592_654;

/// One Horner step of the sine series at nano scale: given `t2` (the
/// squared angle) and the inner factor `p`, produces `1 - t2 * p / d`,
/// where `d` is the product of the two next factorial divisors.
pub open spec fn poly_step(t2: int, p: int, d: int) -> int {
    NANO - (t2 * p) / (d * NANO)
}

/// Fixed-point `SCALE * sin(pi * x / SCALE)` for a quarter turn
/// `0 <= x <= HALF_SCALE`: the Taylor series
/// `theta (1 - theta^2/6 (1 - theta^2/20 (1 - theta^2/42 (1 - theta^2/72
/// (1 - theta^2/110)))))` at nano scale, rounded to the nearest tick. The
/// final saturation at `SCALE` never changes a value of the series (which
/// stays below one on a quarter turn); it only makes that bound immediate.
pub open spec fn sin_quarter(x: int) -> int {
    let theta = (x * PI_NANO) / (SCALE as int);
    let t2 = (theta * theta) / (NANO as int);
    let p1 = poly_step(t2, NANO as int, 110);
    let p2 = poly_step(t2, p1, 72);
    let p3 = poly_step(t2, p2, 42);
    let p4 = poly_step(t2, p3, 20);
    let p5 = poly_step(t2, p4, 6);
    let raw = ((theta * p5) / (NANO as int) + 500) / 1000;
    if raw > SCALE {
        SCALE as int
    } else {
        raw
    }
}

/// Fixed-point `SCALE * sin(pi * t / SCALE)` for a half turn
/// `0 <= t <= SCALE`: the second quarter turn mirrors the first.
pub open spec fn sin_half_turn(t: int) -> int {
    if t <= HALF_SCALE {
        sin_quarter(t)
    } else {
        sin_quarter(SCALE - t)
    }
}

/// Fixed-point `SCALE * sin(pi * u / SCALE)` over a full turn
/// `0 <= u < 2 * SCALE`: the second half turn is the mirrored negative of
/// the first.
pub open spec fn sin_turn(u: int) -> int {
    if u <= SCALE {
        sin_half_turn(u)
    } else {
        -sin_half_turn(u - SCALE)
    }
}

/// Fixed-point `SCALE * sin(2 * pi * p / SCALE)`, for a phase `p` that is
/// a fraction of one waveform cycle in `[0, SCALE)`.
pub open spec fn sin_cycle(p: int) -> int {
    sin_turn(2 * p)
}

/// Computes one Horner step of the sine series.
fn sine_poly_step(t2: i64, p: i64, d: i64) -> (r: i64)
    requires
        0 <= t2 <= 2_470_000_000,
        0 <= p <= NANO,
        6 <= d <= 110,
    ensures
        r == poly_step(t2 as int, p as int, d as int),
        0 <= r <= NANO,
{
    proof {
        assert(0 <= t2 * p <= 2_470_000_000_000_000_000int) by (nonlinear_arith)
            requires
                0 <= t2 <= 2_470_000_000,
                0 <= p <= 1_000_000_000,
        ;
        lemma_div_pos_is_pos(t2 * p, d as int * NANO);
        lemma_div_is_ordered(t2 * p, 2_470_000_000_000_000_000, d as int * NANO);
        lemma_div_is_ordered_by_denominator(
            2_470_000_000_000_000_000,
            6_000_000_000,
            d as int * NANO,
        );
    }
    let q = floor_div(t2 * p, d * NANO);
    NANO - q
}

/// Computes `sin_quarter(x)` for a quarter turn `0 <= x <= HALF_SCALE`.
fn sine_quarter(x: i64) -> (r: i64)
    requires
        0 <= x <= HALF_SCALE,
    ensures
        r == sin_quarter(x as int),
        0 <= r <= SCALE,
{
    let theta = floor_div(x * PI_NANO, SCALE);
    proof {
        lemma_div_pos_is_pos(x as int * PI_NANO, SCALE as int);
        lemma_div_is_ordered(x as int * PI_NANO, 500_000 * (PI_NANO as int), SCALE as int);
        assert(0 <= theta * theta <= 2_467_401_101_000_000_000int) by (nonlinear_arith)
            requires
                0 <= theta <= 1_570_796_327,
        ;
    }
    let t2 = floor_div(theta * theta, NANO);
    proof {
        lemma_div_pos_is_pos(theta as int * theta as int, NANO as int);
        lemma_div_is_ordered(theta as int * theta as int, 2_467_401_101_000_000_000, NANO as int);
    }
    let p1 = sine_poly_step(t2, NANO, 110);
    let p2 = sine_poly_step(t2, p1, 72);
    let p3 = sine_poly_step(t2, p2, 42);
    let p4 = sine_poly_step(t2, p3, 20);
    let p5 = sine_poly_step(t2, p4, 6);
    proof {
        assert(0 <= theta * p5 <= 1_570_796_327_000_000_000int) by (nonlinear_arith)
            requires
                0 <= theta <= 1_570_796_327,
                0 <= p5 <= 1_000_000_000,
        ;
    }
    let s = floor_div(theta * p5, NANO);
    proof {
        lemma_div_pos_is_pos(theta as int * p5 as int, NANO as int);
        lemma_div_is_ordered(theta as int * p5 as int, 1_570_796_327_000_000_000, NANO as int);
        lemma_div_pos_is_pos(s as int + 500, 1000);
    }
    let raw = floor_div(s + 500, 1000);
    if raw > SCALE {
        SCALE
    } else {
        raw
    }
}

/// Computes `sin_half_turn(t)` for a half turn `0 <= t <= SCALE`.
fn sine_half_turn(t: i64) -> (r: i64)
    requires
        0 <= t <= SCALE,
    ensures
        r == sin_half_turn(t as int),
        0 <= r <= SCALE,
{
    if t <= HALF_SCALE {
        sine_quarter(t)
    } else {
        sine_quarter(SCALE - t)
    }
}

/// Computes `sin_turn(u)` for a full turn `0 <= u < 2 * SCALE`.
pub fn sine_turn(u: i64) -> (r: i64)
    requires
        0 <= u < 2 * SCALE,
    ensures
        r == sin_turn(u as int),
        -SCALE <= r <= SCALE,
{
    if u <= SCALE {
        sine_half_turn(u)
    } else {
        -sine_half_turn(u - SCALE)
    }
}

/// Computes `sin_cycle(p)` for a phase `0 <= p < SCALE`.
pub fn sine_cycle(p: i64) -> (r: i64)
    requires
        0 <= p < SCALE,
    ensures
        r == sin_cycle(p as int),
        -SCALE <= r <= SCALE,
{
    sine_turn(2 * p)
}

} // verus!
