use vstd::prelude::*;
use vstd::arithmetic::div_mod::{
    lemma_div_denominator, lemma_div_is_ordered, lemma_div_is_ordered_by_denominator,
    lemma_div_multiples_vanish, lemma_multiply_divide_lt,
};
use vstd::arithmetic::mul::{lemma_mul_inequality, lemma_mul_strict_inequality};

verus! {

/// One world unit, in raw fixed-point steps: every coordinate, radius and
/// speed in this crate is an integer count of thousandths of a world unit.
pub const SCALE: i64 = 1000;

/// Truncating division (toward zero), the semantics of `/` on Rust's signed
/// integers, written over mathematical integers for use in contracts.
pub open spec fn tdiv(a: int, b: int) -> int {
    if a >= 0 {
        a / b
    } else {
        -((-a) / b)
    }
}

/// Absolute value over mathematical integers.
pub open spec fn absi(a: int) -> int {
    if a >= 0 {
        a
    } else {
        -a
    }
}

/// The magnitude of a truncating quotient is the quotient of the magnitudes.
pub proof fn lemma_tdiv_abs(a: int, b: int)
    requires
        b > 0,
    ensures
        absi(tdiv(a, b)) == absi(a) / b,
        a >= 0 ==> tdiv(a, b) >= 0,
        a <= 0 ==> tdiv(a, b) <= 0,
{
    if a >= 0 {
        lemma_div_is_ordered(0, a, b);
    } else {
        lemma_div_is_ordered(0, -a, b);
    }
}

/// A common positive factor of numerator and denominator cancels exactly,
/// even under truncation.
pub proof fn lemma_tdiv_cancel(a: int, b: int, m: int)
    requires
        b > 0,
        m > 0,
    ensures
        tdiv(a * m, b * m) == tdiv(a, b),
{
    assert(b * m > 0) by (nonlinear_arith)
        requires
            b > 0 && m > 0,
    ;
    if a >= 0 {
        assert(a * m >= 0) by (nonlinear_arith)
            requires
                a >= 0 && m > 0,
        ;
        lemma_euclid_cancel(a, b, m);
    } else {
        assert(a * m < 0 && (-a) * m == -(a * m)) by (nonlinear_arith)
            requires
                a < 0 && m > 0,
        ;
        lemma_euclid_cancel(-a, b, m);
    }
}

proof fn lemma_euclid_cancel(a: int, b: int, m: int)
    requires
        a >= 0,
        b > 0,
        m > 0,
    ensures
        (a * m) / (b * m) == a / b,
{
    lemma_div_denominator(a * m, m, b);
    assert(m * b == b * m) by (nonlinear_arith);
    lemma_div_multiples_vanish(a, m);
    assert(m * a == a * m) by (nonlinear_arith);
}

/// A quotient whose numerator is bounded by `s` times the denominator is
/// itself bounded by `s`.
pub proof fn lemma_tdiv_le_factor(n: int, s: int, den: int)
    requires
        den >= 1,
        s >= 0,
        absi(n) <= s * den,
    ensures
        absi(tdiv(n, den)) <= s,
{
    lemma_tdiv_abs(n, den);
    lemma_div_is_ordered(absi(n), s * den, den);
    lemma_div_multiples_vanish(s, den);
    assert(s * den == den * s) by (nonlinear_arith);
}

/// The strict form: a numerator strictly below `s` times the denominator
/// gives a quotient strictly below `s`.
pub proof fn lemma_tdiv_lt_factor(n: int, s: int, den: int)
    requires
        den >= 1,
        s >= 0,
        absi(n) < s * den,
    ensures
        absi(tdiv(n, den)) < s,
{
    lemma_tdiv_abs(n, den);
    assert(s * den == den * s) by (nonlinear_arith);
    lemma_multiply_divide_lt(absi(n), den, s);
}

/// The integer square root: the largest integer whose square does not
/// exceed the argument (zero for negative arguments).
pub open spec fn isqrt_spec(n: int) -> int
    decreases n,
{
    if n <= 0 {
        0
    } else {
        let r = isqrt_spec(n - 1);
        if (r + 1) * (r + 1) <= n {
            r + 1
        } else {
            r
        }
    }
}

/// `isqrt_spec(n)` is exactly the floor of the real square root.
pub proof fn lemma_isqrt_spec_bounds(n: int)
    requires
        n >= 0,
    ensures
        isqrt_spec(n) >= 0,
        isqrt_spec(n) * isqrt_spec(n) <= n,
        n < (isqrt_spec(n) + 1) * (isqrt_spec(n) + 1),
    decreases n,
{
    if n > 0 {
        lemma_isqrt_spec_bounds(n - 1);
        let r = isqrt_spec(n - 1);
        if (r + 1) * (r + 1) <= n {
            assert(isqrt_spec(n) == r + 1);
            assert(n < ((r + 1) + 1) * ((r + 1) + 1)) by (nonlinear_arith)
                requires
                    r >= 0 && n - 1 < (r + 1) * (r + 1),
            ;
        } else {
            assert(isqrt_spec(n) == r);
        }
    }
}

/// Any value bracketing `n` between consecutive squares is the square root.
pub proof fn lemma_isqrt_unique(n: int, r: int)
    requires
        0 <= r,
        r * r <= n,
        n < (r + 1) * (r + 1),
    ensures
        r == isqrt_spec(n),
{
    let s = isqrt_spec(n);
    lemma_isqrt_spec_bounds(n);
    if r < s {
        lemma_mul_inequality(r + 1, s, r + 1);
        lemma_mul_inequality(r + 1, s, s);
        assert(false);
    }
    if s < r {
        lemma_mul_inequality(s + 1, r, s + 1);
        lemma_mul_inequality(s + 1, r, r);
        assert(false);
    }
}

/// Integer square root by bisection over the full `u128` range.
pub fn isqrt(n: u128) -> (r: u64)
    ensures
        r == isqrt_spec(n as int),
        r * r <= n,
{
    let mut lo: u128 = 0;
    let mut hi: u128 = 0x10000000000000000;
    proof {
        assert(hi * hi > u128::MAX) by (nonlinear_arith)
            requires
                hi == 0x10000000000000000,
        ;
    }
    while hi - lo > 1
        invariant
            lo < hi <= 0x10000000000000000,
            lo * lo <= n < hi * hi,
        decreases hi - lo,
    {
        let mid: u128 = lo + (hi - lo) / 2;
        proof {
            lemma_mul_strict_inequality(mid as int, hi as int, mid as int);
            lemma_mul_inequality(mid as int, hi as int, hi as int);
            assert(mid * mid <= u128::MAX) by (nonlinear_arith)
                requires
                    mid < 0x10000000000000000,
            ;
        }
        if mid * mid <= n {
            lo = mid;
        } else {
            hi = mid;
        }
    }
    proof {
        assert(hi == lo + 1);
        lemma_isqrt_unique(n as int, lo as int);
    }
    lo as u64
}

/// Truncating division on wide integers, the workhorse of the fixed-point
/// arithmetic here: all intermediate products are taken in `i128`.
pub fn div_trunc(a: i128, b: i128) -> (q: i128)
    requires
        b > 0,
        a > i128::MIN,
    ensures
        q == tdiv(a as int, b as int),
{
    a / b
}

} // verus!
