//! Fixed-point three-component vectors: the value type every velocity,
//! direction and contact normal in the crate is expressed in.

use vstd::prelude::*;
use crate::math::{SCALE, MAG_MAX, sqrt_floor, isqrt, div_e, lemma_mul_bound};
use vstd::arithmetic::div_mod::{lemma_div_is_ordered, lemma_div_multiples_vanish};

verus! {

/// A vector of three fixed-point components (`SCALE` sub-units per unit).
#[derive(Clone, Copy, PartialEq, Eq, Structural, Debug)]
pub struct Vec3 {
    pub x: i64,
    pub y: i64,
    pub z: i64,
}

impl Vec3 {
    /// Every component is at most `b` in magnitude.
    pub open spec fn bounded(self, b: int) -> bool {
        &&& -b <= self.x <= b
        &&& -b <= self.y <= b
        &&& -b <= self.z <= b
    }

    /// All three components are zero.
    pub open spec fn is_zero_spec(self) -> bool {
        self.x == 0 && self.y == 0 && self.z == 0
    }

    /// Squared length.
    pub open spec fn norm_sq_spec(self) -> int {
        self.x * self.x + self.y * self.y + self.z * self.z
    }

    /// Inner product.
    pub open spec fn dot_spec(self, o: Vec3) -> int {
        self.x * o.x + self.y * o.y + self.z * o.z
    }

    /// The vector with the vertical component dropped.
    pub open spec fn horizontal_spec(self) -> Vec3 {
        Vec3 { x: self.x, y: 0, z: self.z }
    }

    /// Componentwise sum.
    pub open spec fn add_spec(self, o: Vec3) -> Vec3 {
        Vec3 {
            x: (self.x + o.x) as i64,
            y: (self.y + o.y) as i64,
            z: (self.z + o.z) as i64,
        }
    }

    /// Componentwise `v * a / d` with Euclidean division.
    pub open spec fn scaled_spec(self, a: int, d: int) -> Vec3 {
        Vec3 {
            x: (self.x * a / d) as i64,
            y: (self.y * a / d) as i64,
            z: (self.z * a / d) as i64,
        }
    }

    /// The unit vector (scaled by `SCALE`) pointing the same way, or the zero
    /// vector when there is no direction to point in.
    pub open spec fn unit_spec(self) -> Vec3 {
        if self.is_zero_spec() {
            self
        } else {
            let m = sqrt_floor(self.norm_sq_spec());
            Vec3 {
                x: (self.x * SCALE / m) as i64,
                y: (self.y * SCALE / m) as i64,
                z: (self.z * SCALE / m) as i64,
            }
        }
    }

    /// The all-zero vector.
    pub fn zero() -> (r: Vec3)
        ensures
            r == (Vec3 { x: 0, y: 0, z: 0 }),
    {
        Vec3 { x: 0, y: 0, z: 0 }
    }

    /// Whether all components are zero.
    pub fn is_zero(&self) -> (r: bool)
        ensures
            r == self.is_zero_spec(),
    {
        self.x == 0 && self.y == 0 && self.z == 0
    }

    /// Drops the vertical component.
    pub fn horizontal(&self) -> (r: Vec3)
        ensures
            r == self.horizontal_spec(),
    {
        Vec3 { x: self.x, y: 0, z: self.z }
    }

    /// Componentwise sum.
    pub fn add(&self, o: &Vec3) -> (r: Vec3)
        requires
            self.bounded(4 * MAG_MAX as int),
            o.bounded(4 * MAG_MAX as int),
        ensures
            r == self.add_spec(*o),
    {
        Vec3 { x: self.x + o.x, y: self.y + o.y, z: self.z + o.z }
    }

    /// Inner product of two magnitude-bounded vectors.
    pub fn dot(&self, o: &Vec3) -> (r: i64)
        requires
            self.bounded(MAG_MAX as int),
            o.bounded(MAG_MAX as int),
        ensures
            r == self.dot_spec(*o),
    {
        proof {
            lemma_mul_bound(self.x as int, o.x as int, MAG_MAX as int, MAG_MAX as int);
            lemma_mul_bound(self.y as int, o.y as int, MAG_MAX as int, MAG_MAX as int);
            lemma_mul_bound(self.z as int, o.z as int, MAG_MAX as int, MAG_MAX as int);
        }
        self.x * o.x + self.y * o.y + self.z * o.z
    }

    /// Componentwise `v * a / d`.
    pub fn scaled(&self, a: i64, d: i64) -> (r: Vec3)
        requires
            self.bounded(MAG_MAX as int),
            -MAG_MAX <= a <= MAG_MAX,
            d >= 1,
        ensures
            r == self.scaled_spec(a as int, d as int),
    {
        proof {
            lemma_mul_bound(self.x as int, a as int, MAG_MAX as int, MAG_MAX as int);
            lemma_mul_bound(self.y as int, a as int, MAG_MAX as int, MAG_MAX as int);
            lemma_mul_bound(self.z as int, a as int, MAG_MAX as int, MAG_MAX as int);
        }
        Vec3 { x: div_e(self.x * a, d), y: div_e(self.y * a, d), z: div_e(self.z * a, d) }
    }

    /// Squared length of a magnitude-bounded vector.
    pub fn norm_sq(&self) -> (r: i64)
        requires
            self.bounded(MAG_MAX as int),
        ensures
            r == self.norm_sq_spec(),
            0 <= r <= 3_000_000_000_000,
    {
        proof {
            lemma_mul_bound(self.x as int, self.x as int, MAG_MAX as int, MAG_MAX as int);
            lemma_mul_bound(self.y as int, self.y as int, MAG_MAX as int, MAG_MAX as int);
            lemma_mul_bound(self.z as int, self.z as int, MAG_MAX as int, MAG_MAX as int);
            lemma_square_nonneg(self.x as int);
            lemma_square_nonneg(self.y as int);
            lemma_square_nonneg(self.z as int);
        }
        self.x * self.x + self.y * self.y + self.z * self.z
    }

    /// The `SCALE`-scaled unit vector in this direction, or zero.
    pub fn unit_or_zero(&self) -> (r: Vec3)
        requires
            self.bounded(MAG_MAX as int),
        ensures
            r == self.unit_spec(),
            r.bounded(SCALE as int),
    {
        if self.is_zero() {
            *self
        } else {
            let n = self.norm_sq();
            let m = isqrt(n);
            proof {
                lemma_square_nonneg(self.x as int);
                lemma_square_nonneg(self.y as int);
                lemma_square_nonneg(self.z as int);
                assert(n >= 1) by {
                    if self.x != 0 {
                        lemma_square_pos(self.x as int);
                    } else if self.y != 0 {
                        lemma_square_pos(self.y as int);
                    } else {
                        lemma_square_pos(self.z as int);
                    }
                }
                assert(m >= 1);
                lemma_comp_within_root(self.x as int, n as int, m as int);
                lemma_comp_within_root(self.y as int, n as int, m as int);
                lemma_comp_within_root(self.z as int, n as int, m as int);
                lemma_unit_div_bound(self.x as int, m as int);
                lemma_unit_div_bound(self.y as int, m as int);
                lemma_unit_div_bound(self.z as int, m as int);
                lemma_mul_bound(self.x as int, SCALE as int, MAG_MAX as int, SCALE as int);
                lemma_mul_bound(self.y as int, SCALE as int, MAG_MAX as int, SCALE as int);
                lemma_mul_bound(self.z as int, SCALE as int, MAG_MAX as int, SCALE as int);
            }
            let r = Vec3 {
                x: div_e(self.x * SCALE, m),
                y: div_e(self.y * SCALE, m),
                z: div_e(self.z * SCALE, m),
            };
            r
        }
    }
}

/// Scaling a vector whose components are within the divisor by a bounded
/// factor keeps every component within that factor's bound.
pub proof fn lemma_scaled_bound(v: Vec3, a: int, d: int, m: int)
    requires
        v.bounded(d),
        -m <= a <= m,
        d >= 1,
        0 <= m <= MAG_MAX,
    ensures
        v.scaled_spec(a, d).bounded(m),
{
    lemma_scaled_comp_bound(v.x as int, a, d, m);
    lemma_scaled_comp_bound(v.y as int, a, d, m);
    lemma_scaled_comp_bound(v.z as int, a, d, m);
}

/// One component of the bound above.
proof fn lemma_scaled_comp_bound(x: int, a: int, d: int, m: int)
    requires
        -d <= x <= d,
        -m <= a <= m,
        d >= 1,
        0 <= m,
    ensures
        -m <= x * a / d <= m,
{
    assert(x * a <= d * m) by (nonlinear_arith)
        requires
            -d <= x <= d,
            -m <= a <= m,
            0 <= m,
    ;
    assert(d * -m <= x * a) by (nonlinear_arith)
        requires
            -d <= x <= d,
            -m <= a <= m,
            0 <= m,
    ;
    lemma_div_is_ordered(x * a, d * m, d);
    lemma_div_is_ordered(d * -m, x * a, d);
    lemma_div_multiples_vanish(m, d);
    lemma_div_multiples_vanish(-m, d);
}

/// The unit vector of any bounded vector is componentwise within one unit.
pub proof fn lemma_unit_spec_bounded(v: Vec3)
    requires
        v.bounded(MAG_MAX as int),
    ensures
        v.unit_spec().bounded(SCALE as int),
{
    if !v.is_zero_spec() {
        lemma_square_nonneg(v.x as int);
        lemma_square_nonneg(v.y as int);
        lemma_square_nonneg(v.z as int);
        if v.x != 0 {
            lemma_square_pos(v.x as int);
        } else if v.y != 0 {
            lemma_square_pos(v.y as int);
        } else {
            lemma_square_pos(v.z as int);
        }
        let n = v.norm_sq_spec();
        crate::math::lemma_sqrt_floor_is_root(n);
        let m = sqrt_floor(n);
        lemma_comp_within_root(v.x as int, n, m);
        lemma_comp_within_root(v.y as int, n, m);
        lemma_comp_within_root(v.z as int, n, m);
        lemma_unit_div_bound(v.x as int, m);
        lemma_unit_div_bound(v.y as int, m);
        lemma_unit_div_bound(v.z as int, m);
    }
}

/// A square is never negative.
pub proof fn lemma_square_nonneg(x: int)
    ensures
        x * x >= 0,
{
    assert(x * x >= 0) by (nonlinear_arith);
}

/// The square of a nonzero number is at least one.
proof fn lemma_square_pos(x: int)
    requires
        x != 0,
    ensures
        x * x >= 1,
{
    assert(x * x >= 1) by (nonlinear_arith)
        requires
            x != 0,
    ;
}

/// A component of a vector is no larger in magnitude than the rounded-down
/// square root of the vector's squared length.
proof fn lemma_comp_within_root(x: int, n: int, m: int)
    requires
        x * x <= n,
        n < (m + 1) * (m + 1),
        0 <= m,
    ensures
        -m <= x <= m,
{
    assert(-m <= x <= m) by (nonlinear_arith)
        requires
            x * x <= n,
            n < (m + 1) * (m + 1),
            0 <= m,
    ;
}

/// Scaling a component by `SCALE / m` keeps it within `[-SCALE, SCALE]`
/// whenever the component is within `[-m, m]`.
proof fn lemma_unit_div_bound(x: int, m: int)
    requires
        -m <= x <= m,
        1 <= m,
    ensures
        -(SCALE as int) <= x * SCALE / m <= SCALE as int,
{
    let s = SCALE as int;
    assert(x * s <= m * s) by (nonlinear_arith)
        requires
            x <= m,
            s >= 0,
    ;
    assert(m * -s <= x * s) by (nonlinear_arith)
        requires
            -m <= x,
            s >= 0,
    ;
    lemma_div_is_ordered(x * s, m * s, m);
    lemma_div_is_ordered(m * -s, x * s, m);
    lemma_div_multiples_vanish(s, m);
    lemma_div_multiples_vanish(-s, m);
}

} // verus!
