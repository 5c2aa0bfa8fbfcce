//! Fixed-point scalars: integers that count millionths.

use vstd::arithmetic::div_mod::lemma_div_by_multiple;
use vstd::arithmetic::div_mod::lemma_div_denominator;
use vstd::arithmetic::mul::lemma_mul_is_commutative;
use vstd::prelude::*;

verus! {

/// The integer that stands for 1.0.
pub const SCALE: i64 = 1_000_000;

/// Quotient of `n` by a positive `d`, rounded toward zero.
pub open spec fn trunc_div(n: int, d: int) -> int
    recommends
        d > 0,
{
    if n >= 0 {
        n / d
    } else {
        -((-n) / d)
    }
}

/// The value of the `i64` range that is nearest to `x`.
pub open spec fn saturated(x: int) -> i64 {
    if x < i64::MIN {
        i64::MIN
    } else if x > i64::MAX {
        i64::MAX
    } else {
        x as i64
    }
}

/// Brings a wide intermediate result back into the `i64` range.
pub fn saturate(x: i128) -> (r: i64)
    ensures
        r == saturated(x as int),
{
    if x < i64::MIN as i128 {
        i64::MIN
    } else if x > i64::MAX as i128 {
        i64::MAX
    } else {
        x as i64
    }
}

/// A common positive factor of dividend and divisor does not change the quotient.
pub proof fn lemma_trunc_div_cancel(n: int, d: int, k: int)
    requires
        d > 0,
        k > 0,
    ensures
        trunc_div(n * k, d * k) == trunc_div(n, d),
{
    let m: int = if n >= 0 { n } else { -n };
    assert(m * k >= 0) by (nonlinear_arith)
        requires
            m >= 0,
            k > 0,
    ;
    assert((m * k) / (d * k) == m / d) by {
        lemma_mul_is_commutative(d, k);
        lemma_div_denominator(m * k, k, d);
        lemma_div_by_multiple(m, k);
    }
    if n >= 0 {
    } else {
        assert((-n) * k == -(n * k)) by (nonlinear_arith);
        if n * k >= 0 {
            assert(n * k < 0) by (nonlinear_arith)
                requires
                    n < 0,
                    k > 0,
            ;
        }
    }
}

/// The quotient of a bounded dividend is bounded.
pub proof fn lemma_trunc_div_bound(n: int, d: int, b: int)
    requires
        d > 0,
        b >= 0,
        -(b * d) <= n <= b * d,
    ensures
        -b <= trunc_div(n, d) <= b,
{
    let m: int = if n >= 0 { n } else { -n };
    assert(m / d <= b) by (nonlinear_arith)
        requires
            0 <= m <= b * d,
            d > 0,
    ;
    assert(m / d >= 0) by (nonlinear_arith)
        requires
            0 <= m,
            d > 0,
    ;
}

/// The product of two bounded factors is bounded by the product of the bounds.
pub proof fn lemma_product_bound(a: int, b: int, bound_a: int, bound_b: int)
    by (nonlinear_arith)
    requires
        -bound_a <= a <= bound_a,
        -bound_b <= b <= bound_b,
    ensures
        -(bound_a * bound_b) <= a * b <= bound_a * bound_b,
{
}

} // verus!
