//! Integer helpers: clamping and the integer square root.

use vstd::prelude::*;

verus! {

/// The integer square root of the largest `i64`.
pub const ROOT_LIMIT: i64 = 3_037_000_499;

/// `r` is the integer square root of `n`: the one natural number whose square
/// is at most `n` while the square of its successor is above `n`.
pub open spec fn is_floor_sqrt(n: int, r: int) -> bool {
    &&& 0 <= r
    &&& r * r <= n
    &&& n < (r + 1) * (r + 1)
}

/// The integer square root of `n`, for `n >= 0`.
pub open spec fn floor_sqrt(n: int) -> int {
    choose|r: int| is_floor_sqrt(n, r)
}

/// Squaring keeps the order of natural numbers.
pub proof fn lemma_square_monotonic(a: int, b: int)
    requires
        0 <= a <= b,
    ensures
        a * a <= b * b,
{
    assert(a * a <= b * b) by (nonlinear_arith)
        requires
            0 <= a <= b,
    ;
}

/// At most one number is the integer square root of `n`.
pub proof fn lemma_floor_sqrt_unique(n: int, r: int, s: int)
    requires
        is_floor_sqrt(n, r),
        is_floor_sqrt(n, s),
    ensures
        r == s,
{
    if r < s {
        lemma_square_monotonic(r + 1, s);
    }
    if s < r {
        lemma_square_monotonic(s + 1, r);
    }
}

/// Whatever satisfies `is_floor_sqrt` is the value of `floor_sqrt`.
pub proof fn lemma_floor_sqrt_is(n: int, r: int)
    requires
        is_floor_sqrt(n, r),
    ensures
        floor_sqrt(n) == r,
{
    lemma_floor_sqrt_unique(n, r, floor_sqrt(n));
}

/// Every natural number has an integer square root, and `floor_sqrt` is it.
pub proof fn lemma_floor_sqrt_exists(n: int)
    requires
        0 <= n,
    ensures
        is_floor_sqrt(n, floor_sqrt(n)),
    decreases n,
{
    if n == 0 {
        assert(is_floor_sqrt(0, 0));
    } else {
        lemma_floor_sqrt_exists(n - 1);
        let r = floor_sqrt(n - 1);
        if n < (r + 1) * (r + 1) {
            assert(is_floor_sqrt(n, r));
        } else {
            assert((r + 1) * (r + 1) < (r + 2) * (r + 2)) by (nonlinear_arith)
                requires
                    0 <= r,
            ;
            assert(is_floor_sqrt(n, r + 1));
        }
    }
}

/// The integer square root grows with its argument.
pub proof fn lemma_floor_sqrt_monotonic(m: int, n: int, r: int, s: int)
    requires
        m <= n,
        is_floor_sqrt(m, r),
        is_floor_sqrt(n, s),
    ensures
        r <= s,
{
    if s < r {
        lemma_square_monotonic(s + 1, r);
    }
}

/// `v` moved to the nearest value in `[lo, hi]`.
pub open spec fn clamped(v: int, lo: int, hi: int) -> int {
    if v < lo {
        lo
    } else if v > hi {
        hi
    } else {
        v
    }
}

/// Computes `clamped`.
pub fn clamp(v: i64, lo: i64, hi: i64) -> (c: i64)
    requires
        lo <= hi,
    ensures
        c == clamped(v as int, lo as int, hi as int),
        lo <= c <= hi,
{
    if v < lo {
        lo
    } else if v > hi {
        hi
    } else {
        v
    }
}

/// The integer square root, found by bisection.
pub fn isqrt(n: i64) -> (r: i64)
    requires
        0 <= n,
    ensures
        is_floor_sqrt(n as int, r as int),
        r == floor_sqrt(n as int),
        r <= ROOT_LIMIT,
{
    let mut lo: i64 = 0;
    let mut hi: i64 = ROOT_LIMIT + 1;
    assert(n < hi * hi) by (nonlinear_arith)
        requires
            n <= 0x7fff_ffff_ffff_ffff,
            hi == 3_037_000_500,
    ;
    while hi - lo > 1
        invariant
            0 <= lo < hi <= ROOT_LIMIT + 1,
            lo * lo <= n,
            n < hi * hi,
        decreases hi - lo,
    {
        let mid: i64 = lo + (hi - lo) / 2;
        assert(0 <= mid * mid <= 3_037_000_500 * 3_037_000_500) by (nonlinear_arith)
            requires
                0 <= mid <= 3_037_000_500,
        ;
        let square: i128 = (mid as i128) * (mid as i128);
        if square <= n as i128 {
            lo = mid;
        } else {
            hi = mid;
        }
    }
    proof {
        assert(hi == lo + 1);
        lemma_floor_sqrt_is(n as int, lo as int);
    }
    lo
}

} // verus!
