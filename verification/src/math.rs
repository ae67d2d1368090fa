//! Fixed-point arithmetic helpers: integer square root, truncating
//! multiply-divide, and clamping.

use vstd::prelude::*;

verus! {

/// Absolute value of a mathematical integer.
pub open spec fn abs_i(x: int) -> int {
    if x < 0 { -x } else { x }
}

/// Truncating (toward zero) division of `p` by a positive `q`, matching what
/// the executable code computes on magnitudes.
pub open spec fn div_tz(p: int, q: int) -> int {
    if p >= 0 { p / q } else { -((-p) / q) }
}

/// Clamp `x` into the closed interval `[lo, hi]`.
pub open spec fn clamp_spec(x: int, lo: int, hi: int) -> int {
    if x < lo { lo } else if x > hi { hi } else { x }
}

/// The floor of the square root of `n`: the largest `r` with `r * r <= n`.
pub open spec fn sqrt_floor(n: nat) -> nat
    decreases n,
{
    if n == 0 {
        0
    } else {
        let s = sqrt_floor((n - 1) as nat);
        if (s + 1) * (s + 1) <= n { (s + 1) as nat } else { s }
    }
}

pub proof fn lemma_sqrt_floor_bounds(n: nat)
    ensures
        sqrt_floor(n) * sqrt_floor(n) <= n,
        n < (sqrt_floor(n) + 1) * (sqrt_floor(n) + 1),
    decreases n,
{
    if n == 0 {
        assert(sqrt_floor(n) == 0);
        assert(n < (sqrt_floor(n) + 1) * (sqrt_floor(n) + 1)) by (nonlinear_arith)
            requires
                n == 0,
                sqrt_floor(n) == 0,
        ;
    } else {
        lemma_sqrt_floor_bounds((n - 1) as nat);
        let s = sqrt_floor((n - 1) as nat);
        if (s + 1) * (s + 1) <= n {
            assert(sqrt_floor(n) == s + 1);
            assert((s + 2) * (s + 2) > n) by (nonlinear_arith)
                requires
                    n - 1 < (s + 1) * (s + 1),
            ;
        } else {
            assert(sqrt_floor(n) == s);
        }
        assert(sqrt_floor(n) * sqrt_floor(n) <= n);
        assert(n < (sqrt_floor(n) + 1) * (sqrt_floor(n) + 1));
    }
}

pub proof fn lemma_sqrt_floor_unique(n: nat, r: nat)
    requires
        r * r <= n,
        n < (r + 1) * (r + 1),
    ensures
        r == sqrt_floor(n),
{
    lemma_sqrt_floor_bounds(n);
    let s = sqrt_floor(n);
    assert(r == s) by (nonlinear_arith)
        requires
            r * r <= n,
            n < (r + 1) * (r + 1),
            s * s <= n,
            n < (s + 1) * (s + 1),
    ;
}

/// `sqrt_floor` never exceeds its argument's square root, so it is monotone
/// in the squared argument.
pub proof fn lemma_sqrt_floor_ge(n: nat, a: nat)
    requires
        a * a <= n,
    ensures
        sqrt_floor(n) >= a,
    decreases n,
{
    lemma_sqrt_floor_bounds(n);
    let s = sqrt_floor(n);
    assert(s >= a) by (nonlinear_arith)
        requires
            a * a <= n,
            n < (s + 1) * (s + 1),
    ;
}

/// Executable integer square root over `u64`, by bisection.
pub fn isqrt_u64(n: u64) -> (r: u64)
    ensures
        r == sqrt_floor(n as nat),
        r <= 0xffff_ffff,
{
    let mut lo: u64 = 0;
    let mut hi: u64 = 0x1_0000_0000;
    proof {
        assert((0x1_0000_0000int) * (0x1_0000_0000int) > n) by (nonlinear_arith)
            requires
                n <= u64::MAX,
        ;
    }
    while lo + 1 < hi
        invariant
            lo < hi <= 0x1_0000_0000,
            (lo as int) * (lo as int) <= n as int,
            (n as int) < (hi as int) * (hi as int),
        decreases hi - lo,
    {
        let mid: u64 = lo + (hi - lo) / 2;
        proof {
            assert((mid as int) * (mid as int) <= 0xffff_ffffu64 * 0xffff_ffffu64) by (nonlinear_arith)
                requires
                    mid <= 0xffff_ffffu64,
            ;
        }
        if mid * mid <= n {
            lo = mid;
        } else {
            hi = mid;
        }
    }
    proof {
        lemma_sqrt_floor_unique(n as nat, lo as nat);
    }
    lo
}

/// Executable clamp on `i64`.
pub fn clamp_i64(x: i64, lo: i64, hi: i64) -> (r: i64)
    requires
        lo <= hi,
    ensures
        r == clamp_spec(x as int, lo as int, hi as int),
        lo <= r <= hi,
{
    if x < lo {
        lo
    } else if x > hi {
        hi
    } else {
        x
    }
}

/// `a * b / q`, truncating toward zero, proved exact against `div_tz`.
pub fn mul_div_tz(a: i64, b: i64, q: i64) -> (r: i64)
    requires
        q > 0,
        abs_i(a as int * b as int) <= i64::MAX,
    ensures
        r == div_tz(a as int * b as int, q as int),
        abs_i(r as int) <= abs_i(a as int * b as int),
{
    let p: i64 = a * b;
    if p >= 0 {
        let d: u64 = (p as u64) / (q as u64);
        proof {
            assert(d <= p) by (nonlinear_arith)
                requires
                    q >= 1,
                    p >= 0,
                    d == (p as int) / (q as int),
            ;
        }
        d as i64
    } else {
        let m: i64 = -p;
        let d: u64 = (m as u64) / (q as u64);
        proof {
            assert(d <= m) by (nonlinear_arith)
                requires
                    q >= 1,
                    m >= 0,
                    d == (m as int) / (q as int),
            ;
        }
        -(d as i64)
    }
}

} // verus!
