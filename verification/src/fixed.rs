//! Fixed-point scale and the two integer division helpers the oscillator
//! uses: Euclidean (floor) division and Euclidean remainder, both with the
//! semantics of the mathematical `/` and `%` on `int`.

use vstd::arithmetic::div_mod::lemma_mod_bound;
use vstd::prelude::*;

verus! {

/// Number of fixed-point ticks that represent the real value `1.0`.
pub const SCALE: i64 = 1_000_000;

/// Half of `SCALE`: the midpoint of one waveform cycle.
pub const HALF_SCALE: i64 = 500_000;

/// Euclidean remainder: the unique `r` with `0 <= r < m` and `r == x (mod m)`.
pub fn wrap_mod(x: i64, m: i64) -> (r: i64)
    requires
        0 < m,
    ensures
        r == x as int % m as int,
        0 <= r < m,
{
    proof {
        lemma_mod_bound(x as int, m as int);
    }
    match x.checked_rem_euclid(m) {
        Some(r) => r,
        None => 0,
    }
}

/// Euclidean (floor) division by a positive divisor.
pub fn floor_div(x: i64, d: i64) -> (q: i64)
    requires
        0 < d,
        i64::MIN < x,
    ensures
        q == x as int / d as int,
{
    proof {
        lemma_floor_div_in_range(x as int, d as int);
    }
    match x.checked_div_euclid(d) {
        Some(q) => q,
        None => 0,
    }
}

/// For a positive divisor the Euclidean quotient never leaves the range of
/// its dividend's type.
proof fn lemma_floor_div_in_range(x: int, d: int)
    requires
        0 < d,
        i64::MIN < x <= i64::MAX,
    ensures
        i64::MIN <= x / d <= i64::MAX,
{
    vstd::arithmetic::div_mod::lemma_div_is_ordered(x, i64::MAX as int, d);
    vstd::arithmetic::div_mod::lemma_div_is_ordered(i64::MIN + 1, x, d);
    vstd::arithmetic::div_mod::lemma_div_nonincreasing(i64::MAX as int, d);
    assert((i64::MIN + 1) / d >= i64::MIN) by {
        if d == 1 {
            vstd::arithmetic::div_mod::lemma_div_by_self(d);
            vstd::arithmetic::div_mod::lemma_div_multiples_vanish(i64::MIN + 1, 1);
        } else {
            vstd::arithmetic::div_mod::lemma_div_decreases(-(i64::MIN + 1), d);
            assert(-(i64::MIN + 1) / d <= -(i64::MIN + 1));
            lemma_div_neg(i64::MIN + 1, d);
        }
    }
}

/// Negating the dividend negates the Euclidean quotient, up to the rounding
/// adjustment: `-a / d >= -(a / d) - 1` for `a <= 0 < d`.
proof fn lemma_div_neg(a: int, d: int)
    requires
        a <= 0,
        0 < d,
    ensures
        a / d >= -((-a) / d) - 1,
{
    let q = (-a) / d;
    let r = (-a) % d;
    vstd::arithmetic::div_mod::lemma_fundamental_div_mod(-a, d);
    vstd::arithmetic::div_mod::lemma_mod_bound(-a, d);
    assert(-a == d * q + r);
    assert(a == d * (-q) - r) by {
        assert(d * (-q) == -(d * q)) by (nonlinear_arith);
    }
    if r == 0 {
        vstd::arithmetic::div_mod::lemma_div_multiples_vanish(-q, d);
        assert(a == d * (-q));
        assert(a / d == -q);
    } else {
        assert(a == d * (-q - 1) + (d - r)) by {
            assert(d * (-q - 1) == d * (-q) - d) by (nonlinear_arith);
        }
        assert(0 <= d - r < d);
        vstd::arithmetic::div_mod::lemma_fundamental_div_mod_converse(
            a,
            d,
            -q - 1,
            d - r,
        );
        assert(a / d == -q - 1);
    }
}

} // verus!
