//! Floor and ceiling of integer quotients with a positive divisor.

use vstd::prelude::*;
use vstd::arithmetic::div_mod::lemma_fundamental_div_mod;
use vstd::arithmetic::div_mod::lemma_fundamental_div_mod_converse;
use vstd::arithmetic::div_mod::lemma_mod_bound;

verus! {

/// The greatest integer `q` with `d * q <= n`, for `d > 0`.
pub open spec fn spec_floor_div(n: int, d: int) -> int {
    n / d
}

/// The least integer `q` with `n <= d * q`, for `d > 0`.
pub open spec fn spec_ceil_div(n: int, d: int) -> int {
    -((-n) / d)
}

/// `spec_floor_div(n, d)` lies where the floor does: `d * q <= n < d * (q + 1)`.
pub proof fn lemma_floor_div_bounds(n: int, d: int)
    requires
        d > 0,
    ensures
        d * spec_floor_div(n, d) <= n < d * (spec_floor_div(n, d) + 1),
{
    lemma_fundamental_div_mod(n, d);
    lemma_mod_bound(n, d);
    assert(d * (n / d + 1) == d * (n / d) + d) by (nonlinear_arith);
}

/// Only one integer lies where the floor does.
pub proof fn lemma_floor_div_unique(n: int, d: int, q: int)
    requires
        d > 0,
        d * q <= n < d * (q + 1),
    ensures
        q == spec_floor_div(n, d),
{
    assert(d * (q + 1) == d * q + d) by (nonlinear_arith);
    assert(q * d == d * q) by (nonlinear_arith);
    lemma_fundamental_div_mod_converse(n, d, q, n - d * q);
}

/// `spec_ceil_div(n, d)` lies where the ceiling does: `d * (q - 1) < n <= d * q`.
pub proof fn lemma_ceil_div_bounds(n: int, d: int)
    requires
        d > 0,
    ensures
        d * (spec_ceil_div(n, d) - 1) < n <= d * spec_ceil_div(n, d),
{
    lemma_floor_div_bounds(-n, d);
    let f = spec_floor_div(-n, d);
    assert(d * (-f) == -(d * f)) by (nonlinear_arith);
    assert(d * (-f - 1) == -(d * (f + 1))) by (nonlinear_arith);
}

/// Only one integer lies where the ceiling does.
pub proof fn lemma_ceil_div_unique(n: int, d: int, q: int)
    requires
        d > 0,
        d * (q - 1) < n <= d * q,
    ensures
        q == spec_ceil_div(n, d),
{
    assert(d * (-q) == -(d * q)) by (nonlinear_arith);
    assert(d * (-q + 1) == -(d * (q - 1))) by (nonlinear_arith);
    lemma_floor_div_unique(-n, d, -q);
}

/// Floor and ceiling grow with the numerator.
pub proof fn lemma_div_monotone(a: int, b: int, d: int)
    requires
        d > 0,
        a <= b,
    ensures
        spec_floor_div(a, d) <= spec_floor_div(b, d),
        spec_ceil_div(a, d) <= spec_ceil_div(b, d),
{
    vstd::arithmetic::div_mod::lemma_div_is_ordered(a, b, d);
    vstd::arithmetic::div_mod::lemma_div_is_ordered(-b, -a, d);
}

/// A fraction `num / den` with a positive denominator.
pub struct Ratio {
    pub num: int,
    pub den: int,
}

impl Ratio {
    /// The greatest integer not above the fraction.
    pub open spec fn floor(self) -> int {
        spec_floor_div(self.num, self.den)
    }

    /// The least integer not below the fraction.
    pub open spec fn ceil(self) -> int {
        spec_ceil_div(self.num, self.den)
    }

    /// The fraction with its sign changed.
    pub open spec fn neg(self) -> Ratio {
        Ratio { num: -self.num, den: self.den }
    }
}

/// Computes the floor of `n / d`.
pub fn floor_div(n: i64, d: i64) -> (q: i64)
    requires
        d > 0,
    ensures
        q == spec_floor_div(n as int, d as int),
        d * q <= n < d * (q + 1),
{
    proof {
        lemma_floor_div_bounds(n as int, d as int);
    }
    if n >= 0 {
        n / d
    } else {
        let m: i64 = -(n + 1);
        let t: i64 = m / d;
        proof {
            lemma_floor_div_bounds(m as int, d as int);
            vstd::arithmetic::div_mod::lemma_div_pos_is_pos(m as int, d as int);
            vstd::arithmetic::div_mod::lemma_div_nonincreasing(m as int, d as int);
            assert(d * (-t - 1) == -(d * (t + 1))) by (nonlinear_arith);
            assert(d * (-t - 1 + 1) == -(d * t)) by (nonlinear_arith);
            lemma_floor_div_unique(n as int, d as int, -t - 1);
        }
        -t - 1
    }
}

/// Computes the ceiling of `n / d`.
pub fn ceil_div(n: i64, d: i64) -> (q: i64)
    requires
        d > 0,
    ensures
        q == spec_ceil_div(n as int, d as int),
        d * (q - 1) < n <= d * q,
{
    let f: i64 = floor_div(n, d);
    proof {
        assert(d * (f + 1) == d * f + d) by (nonlinear_arith);
    }
    if (d as i128) * (f as i128) == n as i128 {
        proof {
            assert(d * (f - 1) == d * f - d) by (nonlinear_arith);
            lemma_ceil_div_unique(n as int, d as int, f as int);
        }
        f
    } else {
        proof {
            assert(f < i64::MAX) by (nonlinear_arith)
                requires
                    d >= 1,
                    d * f < n,
                    n <= i64::MAX,
            ;
            lemma_ceil_div_unique(n as int, d as int, f + 1);
        }
        f + 1
    }
}

} // verus!
