//! Fixed-point scalars.
//!
//! Every coordinate, length, window dimension, pixel offset and scale factor in this
//! crate is an `i64` that counts millionths: the value `1.0` is [`UNITS_PER_ONE`].
//! A quotient that is not a whole number of units is rounded toward negative infinity.
use vstd::prelude::*;
use vstd::arithmetic::div_mod::lemma_fundamental_div_mod;
use vstd::arithmetic::div_mod::lemma_fundamental_div_mod_converse;

verus! {

/// The number of units that make up the value `1.0`.
pub const UNITS_PER_ONE: i64 = 1_000_000;

/// Whether a mathematical integer can be stored in an `i64`.
pub open spec fn fits_i64(v: int) -> bool {
    i64::MIN <= v <= i64::MAX
}

/// The quotient of `n` by a positive `d`, rounded toward negative infinity.
///
/// Machine division rounds toward zero; this corrects the quotient of a negative
/// numerator that `d` does not divide.
pub fn floor_div(n: i128, d: i128) -> (q: i128)
    requires
        d > 0,
    ensures
        q == n / d,
{
    let t: i128 = n / d;
    let r: i128 = n % d;
    if r < 0 {
        proof {
            let m: int = -n;
            lemma_fundamental_div_mod(m, d as int);
            // m == d * (m / d) + m % d, and r == -(m % d) with 0 < m % d < d
            assert(d * (m / (d as int)) == (m / (d as int)) * d) by (nonlinear_arith);
            assert((-(m / (d as int)) - 1) * d == -((m / (d as int)) * d) - d) by (nonlinear_arith);
            lemma_fundamental_div_mod_converse(
                n as int,
                d as int,
                -(m / (d as int)) - 1,
                d - m % (d as int),
            );
            lemma_floor_div_bounds(n as int, d as int);
        }
        t - 1
    } else {
        proof {
            if n < 0 {
                let m: int = -n;
                lemma_fundamental_div_mod(m, d as int);
                assert(d * (m / (d as int)) == (m / (d as int)) * d) by (nonlinear_arith);
                assert((-(m / (d as int))) * d == -((m / (d as int)) * d)) by (nonlinear_arith);
                lemma_fundamental_div_mod_converse(n as int, d as int, -(m / (d as int)), 0);
            }
        }
        t
    }
}

/// A floored quotient by a positive divisor is no farther from zero than its numerator,
/// up to the one unit that rounding down can add below zero.
pub proof fn lemma_floor_div_bounds(n: int, d: int)
    requires
        d > 0,
    ensures
        n >= 0 ==> 0 <= n / d <= n,
        n < 0 ==> n <= n / d < 0,
{
    lemma_fundamental_div_mod(n, d);
    let q: int = n / d;
    let r: int = n % d;
    assert(n == d * q + r);
    assert(0 <= r < d);
    if n >= 0 {
        assert(q >= 0) by (nonlinear_arith)
            requires
                n == d * q + r,
                0 <= r < d,
                n >= 0,
                d > 0,
        ;
        assert(q <= n) by (nonlinear_arith)
            requires
                n == d * q + r,
                0 <= r < d,
                q >= 0,
                d > 0,
        ;
    } else {
        assert(q < 0) by (nonlinear_arith)
            requires
                n == d * q + r,
                0 <= r < d,
                n < 0,
                d > 0,
        ;
        assert(n <= q) by (nonlinear_arith)
            requires
                n == d * q + r,
                0 <= r < d,
                q < 0,
                d > 0,
        ;
    }
}

} // verus!
