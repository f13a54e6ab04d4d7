//! Fixed-point scalar arithmetic: the global scale, clamping, Euclidean
//! division and an integer square root.

use vstd::prelude::*;

verus! {

/// Fixed-point sub-units per world unit: a speed of `5 * SCALE` is five
/// world units per second, a unit vector has squared length `SCALE * SCALE`.
pub const SCALE: i64 = 1000;

/// Largest magnitude any configured speed, impulse or acceleration may take
/// (one thousand world units per second).
pub const MAG_MAX: i64 = 1_000_000;

/// `x` clamped into `[lo, hi]`.
pub open spec fn clamp_spec(x: int, lo: int, hi: int) -> int {
    if x < lo {
        lo
    } else if x > hi {
        hi
    } else {
        x
    }
}

/// Clamps `x` into `[lo, hi]`.
pub fn clamp(x: i64, lo: i64, hi: i64) -> (r: i64)
    requires
        lo <= hi,
    ensures
        r == clamp_spec(x as int, lo as int, hi as int),
{
    if x < lo {
        lo
    } else if x > hi {
        hi
    } else {
        x
    }
}

/// Euclidean division by a positive divisor; the result is `a / b` in the
/// sense of the specification-level `/` on `int`.
pub fn div_e(a: i64, b: i64) -> (r: i64)
    requires
        b >= 1,
    ensures
        r == a as int / b as int,
{
    proof {
        lemma_div_in_i64_range(a as int, b as int);
    }
    a.checked_div_euclid(b).unwrap()
}

/// Euclidean remainder by a positive divisor; the result is `a % b` in the
/// sense of the specification-level `%` on `int`.
pub fn rem_e(a: i64, b: i64) -> (r: i64)
    requires
        b >= 1,
    ensures
        r == a as int % b as int,
        0 <= r < b,
{
    proof {
        vstd::arithmetic::div_mod::lemma_fundamental_div_mod(a as int, b as int);
    }
    a.checked_rem_euclid(b).unwrap()
}

/// Dividing an `i64` by a positive divisor never leaves the `i64` range.
proof fn lemma_div_in_i64_range(a: int, b: int)
    requires
        b >= 1,
        i64::MIN <= a <= i64::MAX,
    ensures
        i64::MIN <= a / b <= i64::MAX,
{
    vstd::arithmetic::div_mod::lemma_fundamental_div_mod(a, b);
    let q = a / b;
    let r = a % b;
    assert(i64::MIN <= q <= i64::MAX) by (nonlinear_arith)
        requires
            b >= 1,
            b * q + r == a,
            0 <= r < b,
            i64::MIN <= a <= i64::MAX,
    ;
}

/// A product of two bounded factors is bounded by the product of the bounds.
pub proof fn lemma_mul_bound(a: int, b: int, m1: int, m2: int)
    requires
        -m1 <= a <= m1,
        -m2 <= b <= m2,
    ensures
        -(m1 * m2) <= a * b <= m1 * m2,
{
    assert(-(m1 * m2) <= a * b <= m1 * m2) by (nonlinear_arith)
        requires
            -m1 <= a <= m1,
            -m2 <= b <= m2,
    ;
}

/// Taking the fraction `f / d` of a number (with `0 <= f <= d`) never leaves
/// the interval between zero and that number.
pub proof fn lemma_frac_bound(x: int, f: int, d: int)
    requires
        0 <= f <= d,
        1 <= d,
    ensures
        x >= 0 ==> 0 <= x * f / d <= x,
        x < 0 ==> x <= x * f / d <= 0,
{
    vstd::arithmetic::div_mod::lemma_div_multiples_vanish(x, d);
    vstd::arithmetic::div_mod::lemma_div_of0(d);
    assert(x * d == d * x) by (nonlinear_arith);
    if x >= 0 {
        assert(0 <= x * f <= x * d) by (nonlinear_arith)
            requires
                0 <= f <= d,
                x >= 0,
        ;
        vstd::arithmetic::div_mod::lemma_div_is_ordered(0, x * f, d);
        vstd::arithmetic::div_mod::lemma_div_is_ordered(x * f, x * d, d);
    } else {
        assert(x * d <= x * f <= 0) by (nonlinear_arith)
            requires
                0 <= f <= d,
                x < 0,
        ;
        vstd::arithmetic::div_mod::lemma_div_is_ordered(x * d, x * f, d);
        vstd::arithmetic::div_mod::lemma_div_is_ordered(x * f, 0, d);
    }
}

/// The product of two unit-bounded factors, scaled back down, is itself
/// unit-bounded.
pub proof fn lemma_unit_product_div(a: int, b: int)
    requires
        -SCALE <= a <= SCALE,
        -SCALE <= b <= SCALE,
    ensures
        -SCALE <= a * b / (SCALE as int) <= SCALE,
{
    let s = SCALE as int;
    lemma_mul_bound(a, b, s, s);
    vstd::arithmetic::div_mod::lemma_div_is_ordered(a * b, s * s, s);
    vstd::arithmetic::div_mod::lemma_div_is_ordered(s * -s, a * b, s);
    vstd::arithmetic::div_mod::lemma_div_multiples_vanish(s, s);
    vstd::arithmetic::div_mod::lemma_div_multiples_vanish(-s, s);
}

/// The nonnegative integer square root: the unique `r >= 0` with
/// `r * r <= n < (r + 1) * (r + 1)`.
pub open spec fn sqrt_floor(n: int) -> int {
    choose|r: int| 0 <= r && #[trigger] (r * r) <= n && n < (r + 1) * (r + 1)
}

/// Every nonnegative number has an integer square root.
pub proof fn lemma_sqrt_exists(n: int)
    requires
        0 <= n,
    ensures
        exists|r: int| 0 <= r && #[trigger] (r * r) <= n && n < (r + 1) * (r + 1),
    decreases n,
{
    if n == 0 {
        let w: int = 0;
        assert(0 <= w && w * w <= n && n < (w + 1) * (w + 1)) by (nonlinear_arith)
            requires
                n == 0,
                w == 0,
        ;
    } else {
        lemma_sqrt_exists(n - 1);
        let r = choose|r: int| 0 <= r && #[trigger] (r * r) <= n - 1 && n - 1 < (r + 1) * (r + 1);
        if (r + 1) * (r + 1) <= n {
            // Then n is exactly the next square, and r + 1 is the root.
            assert(n < (r + 2) * (r + 2)) by (nonlinear_arith)
                requires
                    n - 1 < (r + 1) * (r + 1),
                    (r + 1) * (r + 1) <= n,
                    0 <= r,
            ;
            assert(0 <= r + 1 && (r + 1) * (r + 1) <= n && n < (r + 2) * (r + 2));
        } else {
            assert(0 <= r && r * r <= n && n < (r + 1) * (r + 1));
        }
    }
}

/// The integer square root satisfies its defining property.
pub proof fn lemma_sqrt_floor_is_root(n: int)
    requires
        0 <= n,
    ensures
        0 <= sqrt_floor(n),
        sqrt_floor(n) * sqrt_floor(n) <= n < (sqrt_floor(n) + 1) * (sqrt_floor(n) + 1),
{
    lemma_sqrt_exists(n);
}

/// Two integer square roots of the same number are equal.
pub proof fn lemma_sqrt_floor_unique(n: int, r1: int, r2: int)
    requires
        0 <= r1,
        r1 * r1 <= n < (r1 + 1) * (r1 + 1),
        0 <= r2,
        r2 * r2 <= n < (r2 + 1) * (r2 + 1),
    ensures
        r1 == r2,
{
    assert(r1 == r2) by (nonlinear_arith)
        requires
            0 <= r1,
            r1 * r1 <= n < (r1 + 1) * (r1 + 1),
            0 <= r2,
            r2 * r2 <= n < (r2 + 1) * (r2 + 1),
    ;
}

/// Integer square root by bisection, for arguments up to four times the
/// squared magnitude bound (enough for the squared length of any bounded
/// three-dimensional vector).
pub fn isqrt(n: i64) -> (r: i64)
    requires
        0 <= n <= 4_000_000_000_000,
    ensures
        0 <= r,
        r * r <= n < (r + 1) * (r + 1),
        r == sqrt_floor(n as int),
{
    let mut lo: i64 = 0;
    let mut hi: i64 = 2_000_001;
    assert(n < hi * hi) by (nonlinear_arith)
        requires
            n <= 4_000_000_000_000,
            hi == 2_000_001i64,
    ;
    while lo + 1 < hi
        invariant
            0 <= lo < hi <= 2_000_001,
            lo * lo <= n,
            n < hi * hi,
        decreases hi - lo,
    {
        let mid: i64 = lo + (hi - lo) / 2;
        assert(lo < mid < hi);
        proof {
            assert((mid as int) * (mid as int) <= 4_000_004_000_001) by (nonlinear_arith)
                requires
                    0 <= mid as int <= 2_000_001,
            ;
        }
        if mid * mid <= n {
            lo = mid;
        } else {
            hi = mid;
        }
    }
    proof {
        assert(n < (lo + 1) * (lo + 1));
        assert(exists|r: int| 0 <= r && #[trigger] (r * r) <= n && n < (r + 1) * (r + 1)) by {
            assert(0 <= lo as int && (lo as int) * (lo as int) <= n
                && n < (lo as int + 1) * (lo as int + 1));
        }
        lemma_sqrt_floor_unique(n as int, lo as int, sqrt_floor(n as int));
    }
    lo
}

} // verus!
