//! Fixed-point arithmetic: rounding divisions and their bounds.
use vstd::prelude::*;
use vstd::arithmetic::div_mod::lemma_fundamental_div_mod_converse;

verus! {

/// Millionths per unit: money is held in millionths of a currency unit.
pub const MICROS: i64 = 1_000_000;

/// Hundredths of a percent per whole: a ratio of 1 is 10000 basis points.
pub const BASIS_POINTS: i64 = 10_000;

/// Rounding down (towards minus infinity) of `n / d`.
pub fn floor_div(n: i128, d: i128) -> (r: i128)
    requires
        d > 0,
        n > i128::MIN,
    ensures
        r == n / d,
{
    if n >= 0 {
        n / d
    } else {
        let m = -n - 1;
        let q = m / d;
        proof {
            let rem = m % d;
            assert(m == q * d + rem && 0 <= rem < d) by {
                vstd::arithmetic::div_mod::lemma_fundamental_div_mod(m as int, d as int);
                vstd::arithmetic::div_mod::lemma_mod_bound(m as int, d as int);
            }
            assert(n == (-q - 1) * d + (d - 1 - rem)) by (nonlinear_arith)
                requires
                    m == q * d + rem,
                    m == -n - 1,
            ;
            lemma_fundamental_div_mod_converse(n as int, d as int, -q - 1, d - 1 - rem);
            assert(q * d <= m) by (nonlinear_arith)
                requires
                    m == q * d + rem,
                    rem >= 0,
            ;
            assert(q <= m) by (nonlinear_arith)
                requires
                    q * d <= m,
                    d > 0,
                    m >= 0,
            ;
            assert(q >= 0) by (nonlinear_arith)
                requires
                    m == q * d + rem,
                    rem < d,
                    m >= 0,
                    d > 0,
            ;
        }
        -q - 1
    }
}

/// Rounding of `n / d` to the nearest integer, halves away from zero.
pub open spec fn round_half_away(n: int, d: int) -> int {
    if n >= 0 {
        (2 * n + d) / (2 * d)
    } else {
        -((2 * -n + d) / (2 * d))
    }
}

pub fn round_div(n: i128, d: i128) -> (r: i128)
    requires
        d > 0,
        d <= i64::MAX,
        -(i64::MAX as i128) * (i64::MAX as i128) <= n <= (i64::MAX as i128) * (i64::MAX as i128),
    ensures
        r == round_half_away(n as int, d as int),
{
    if n >= 0 {
        (2 * n + d) / (2 * d)
    } else {
        let q = (2 * -n + d) / (2 * d);
        proof {
            assert(q <= 2 * -n + d) by {
                vstd::arithmetic::div_mod::lemma_div_is_ordered_by_denominator(
                    (2 * -n + d) as int,
                    1,
                    (2 * d) as int,
                );
            }
        }
        -q
    }
}

pub open spec fn clamp(x: int, lo: int, hi: int) -> int {
    if x < lo {
        lo
    } else if x > hi {
        hi
    } else {
        x
    }
}

/// `n / t` lies between zero and `n`.
pub proof fn lemma_div_magnitude(n: int, t: int)
    requires
        t >= 1,
    ensures
        n >= 0 ==> 0 <= n / t <= n,
        n < 0 ==> n <= n / t < 0,
{
    vstd::arithmetic::div_mod::lemma_fundamental_div_mod(n, t);
    vstd::arithmetic::div_mod::lemma_mod_bound(n, t);
    let q = n / t;
    let r = n % t;
    assert(n >= 0 ==> 0 <= q <= n) by (nonlinear_arith)
        requires
            n == t * q + r,
            0 <= r < t,
            t >= 1,
    ;
    assert(n < 0 ==> n <= q < 0) by (nonlinear_arith)
        requires
            n == t * q + r,
            0 <= r < t,
            t >= 1,
    ;
}

} // verus!
