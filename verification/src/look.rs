//! Orientation model: integrates mouse deltas into yaw and pitch, wrapping
//! yaw into a single turn and clamping pitch strictly inside the vertical.

use vstd::prelude::*;
use crate::math::{clamp, clamp_spec, rem_e, SCALE};
use crate::vec3::Vec3;

verus! {

/// One half turn, in microradians.
pub const PI_URAD: i64 = 3_141_593;

/// One full turn, in microradians.
pub const TAU_URAD: i64 = 2 * PI_URAD;

/// How far short of straight up or straight down pitch must stop
/// (0.01 radians), so the view never reaches the gimbal poles.
pub const PITCH_EPS_URAD: i64 = 10_000;

/// Largest magnitude pitch may take: a quarter turn minus the margin.
pub const PITCH_LIMIT_URAD: i64 = 1_560_796;

/// Largest mouse delta accepted for one frame, in device counts.
pub const DELTA_MAX: i64 = 1_000_000;

/// Largest accepted sensitivity, in microradians per device count.
pub const SENS_MAX: i64 = 1_000_000;

/// Look direction: yaw and pitch in microradians.
#[derive(Clone, Copy, PartialEq, Eq, Structural, Debug)]
pub struct LookState {
    pub yaw: i64,
    pub pitch: i64,
}

impl LookState {
    /// Yaw lies within one turn and pitch within the clamped interval.
    pub open spec fn wf(self) -> bool {
        &&& -PI_URAD < self.yaw <= PI_URAD
        &&& -PITCH_LIMIT_URAD <= self.pitch <= PITCH_LIMIT_URAD
    }
}

/// `a` brought into the half-open turn `(-PI_URAD, PI_URAD]` by whole turns.
pub open spec fn wrap_angle_spec(a: int) -> int {
    let m = a % (TAU_URAD as int);
    if m > PI_URAD {
        m - TAU_URAD
    } else {
        m
    }
}

/// The wrapped angle always lies within one turn.
pub proof fn lemma_wrap_bounds(a: int)
    ensures
        -PI_URAD < wrap_angle_spec(a) <= PI_URAD,
{
    vstd::arithmetic::div_mod::lemma_fundamental_div_mod(a, TAU_URAD as int);
}

/// An angle already within one turn is left exactly as it is.
pub proof fn lemma_wrap_identity(a: int)
    requires
        -PI_URAD < a <= PI_URAD,
    ensures
        wrap_angle_spec(a) == a,
{
    let tau = TAU_URAD as int;
    if 0 <= a {
        vstd::arithmetic::div_mod::lemma_small_mod(a as nat, tau as nat);
    } else {
        vstd::arithmetic::div_mod::lemma_mod_add_multiples_vanish(a, tau);
        vstd::arithmetic::div_mod::lemma_small_mod((a + tau) as nat, tau as nat);
    }
}

/// Wraps an angle into `(-PI_URAD, PI_URAD]`.
pub fn wrap_angle(a: i64) -> (r: i64)
    ensures
        r == wrap_angle_spec(a as int),
        -PI_URAD < r <= PI_URAD,
{
    proof {
        lemma_wrap_bounds(a as int);
    }
    let m = rem_e(a, TAU_URAD);
    if m > PI_URAD {
        m - TAU_URAD
    } else {
        m
    }
}

/// The look state after one frame of mouse delta `(dx, dy)` at the given
/// sensitivity: yaw accumulates and wraps, pitch accumulates (downward for a
/// positive `dy` when `invert_y` is set) and clamps.
pub open spec fn look_step_spec(look: LookState, dx: int, dy: int, sens: int, invert_y: bool)
    -> LookState {
    LookState {
        yaw: wrap_angle_spec(look.yaw + dx * sens) as i64,
        pitch: clamp_spec(
            look.pitch + if invert_y { -(dy * sens) } else { dy * sens },
            -PITCH_LIMIT_URAD as int,
            PITCH_LIMIT_URAD as int,
        ) as i64,
    }
}

/// One look step keeps the state well formed, whatever the delta.
pub proof fn lemma_look_step_wf(look: LookState, dx: int, dy: int, sens: int, invert_y: bool)
    ensures
        look_step_spec(look, dx, dy, sens, invert_y).wf(),
{
    lemma_wrap_bounds(look.yaw + dx * sens);
}

/// Integrates one frame of look delta into yaw and pitch.
pub fn apply_look_delta(look: &LookState, dx: i64, dy: i64, sens: i64, invert_y: bool)
    -> (r: LookState)
    requires
        look.wf(),
        -DELTA_MAX <= dx <= DELTA_MAX,
        -DELTA_MAX <= dy <= DELTA_MAX,
        0 <= sens <= SENS_MAX,
    ensures
        r == look_step_spec(*look, dx as int, dy as int, sens as int, invert_y),
        r.wf(),
{
    proof {
        crate::math::lemma_mul_bound(dx as int, sens as int, DELTA_MAX as int, SENS_MAX as int);
        crate::math::lemma_mul_bound(dy as int, sens as int, DELTA_MAX as int, SENS_MAX as int);
        lemma_look_step_wf(*look, dx as int, dy as int, sens as int, invert_y);
    }
    let yaw = wrap_angle(look.yaw + dx * sens);
    let raw_pitch = if invert_y {
        look.pitch - dy * sens
    } else {
        look.pitch + dy * sens
    };
    let pitch = clamp(raw_pitch, -PITCH_LIMIT_URAD, PITCH_LIMIT_URAD);
    LookState { yaw, pitch }
}

/// A quarter turn, in microradians.
pub const HALF_PI_URAD: i64 = 1_570_796;

/// Five times the squared half turn: the constant part of the sine
/// approximation's denominator.
pub const FIVE_PI_SQ: i64 = 5 * PI_URAD * PI_URAD;

/// A rational approximation to the sine on `[0, PI_URAD]`, scaled by
/// `SCALE`: sixteen times `x (PI - x)` over `5 PI^2 - 4 x (PI - x)`.  It is
/// exact at zero and at the half turn and within a few parts in a thousand
/// everywhere between.
pub open spec fn sine_half_spec(x: int) -> int {
    let p = x * (PI_URAD - x);
    16 * p * (SCALE as int) / (FIVE_PI_SQ - 4 * p)
}

/// The approximate sine of any angle, scaled by `SCALE`: the angle is
/// wrapped into one turn and the approximation applied by odd symmetry.
pub open spec fn sine_spec(a: int) -> int {
    let w = wrap_angle_spec(a);
    if w >= 0 {
        sine_half_spec(w)
    } else {
        -sine_half_spec(-w)
    }
}

/// The approximate cosine: the sine a quarter turn ahead.
pub open spec fn cosine_spec(a: int) -> int {
    sine_spec(a + HALF_PI_URAD)
}

/// The sine approximation on the upper half turn.
fn sine_half(x: i64) -> (r: i64)
    requires
        0 <= x <= PI_URAD,
    ensures
        r == sine_half_spec(x as int),
        0 <= r <= SCALE,
{
    proof {
        crate::math::lemma_mul_bound(x as int, (PI_URAD - x) as int, PI_URAD as int,
            PI_URAD as int);
    }
    let p = x * (PI_URAD - x);
    proof {
        assert(p >= 0) by (nonlinear_arith)
            requires
                0 <= x <= PI_URAD,
                p == x as int * (PI_URAD - x) as int,
        ;
        // Four times x (PI - x) never exceeds PI^2, because the square of
        // (2 x - PI) is never negative.
        assert(4 * p <= (PI_URAD as int) * (PI_URAD as int)) by (nonlinear_arith)
            requires
                p == x as int * (PI_URAD - x) as int,
        ;
    }
    let num = 16 * p * SCALE;
    let den = FIVE_PI_SQ - 4 * p;
    let r = crate::math::div_e(num, den);
    proof {
        let s = SCALE as int;
        vstd::arithmetic::div_mod::lemma_div_pos_is_pos(num as int, den as int);
        assert(num <= s * den) by (nonlinear_arith)
            requires
                num == 16 * (p as int) * s,
                den == FIVE_PI_SQ - 4 * (p as int),
                4 * (p as int) <= (PI_URAD as int) * (PI_URAD as int),
                FIVE_PI_SQ == 5 * (PI_URAD as int) * (PI_URAD as int),
                s == 1000,
        ;
        vstd::arithmetic::div_mod::lemma_div_is_ordered(num as int, s * den, den as int);
        vstd::arithmetic::div_mod::lemma_div_multiples_vanish(s, den as int);
        assert(s * den == den * s) by (nonlinear_arith);
    }
    r
}

/// The approximate sine of any angle, scaled by `SCALE`.
pub fn sine(a: i64) -> (r: i64)
    ensures
        r == sine_spec(a as int),
        -SCALE <= r <= SCALE,
{
    let w = wrap_angle(a);
    if w >= 0 {
        sine_half(w)
    } else {
        -sine_half(-w)
    }
}

/// The approximate cosine of an angle within one turn, scaled by `SCALE`.
pub fn cosine(a: i64) -> (r: i64)
    requires
        -TAU_URAD <= a <= TAU_URAD,
    ensures
        r == cosine_spec(a as int),
        -SCALE <= r <= SCALE,
{
    sine(a + HALF_PI_URAD)
}

/// The forward and right unit basis vectors a look state spans: forward is
/// `(sin yaw cos pitch, sin pitch, cos yaw cos pitch)` and right is forward
/// turned a quarter turn about the vertical axis, both scaled by `SCALE`.
pub open spec fn basis_vectors_spec(look: LookState) -> (Vec3, Vec3) {
    let s = SCALE as int;
    let sy = sine_spec(look.yaw as int);
    let cy = cosine_spec(look.yaw as int);
    let sp = sine_spec(look.pitch as int);
    let cp = cosine_spec(look.pitch as int);
    (
        Vec3 { x: (sy * cp / s) as i64, y: sp as i64, z: (cy * cp / s) as i64 },
        Vec3 { x: cy as i64, y: 0, z: (-sy) as i64 },
    )
}

/// Derives the forward and right unit vectors from a look state.
pub fn basis_vectors(look: &LookState) -> (r: (Vec3, Vec3))
    requires
        look.wf(),
    ensures
        r == basis_vectors_spec(*look),
        r.0.bounded(SCALE as int),
        r.1.bounded(SCALE as int),
{
    let sy = sine(look.yaw);
    let cy = cosine(look.yaw);
    let sp = sine(look.pitch);
    let cp = cosine(look.pitch);
    proof {
        crate::math::lemma_mul_bound(sy as int, cp as int, SCALE as int, SCALE as int);
        crate::math::lemma_mul_bound(cy as int, cp as int, SCALE as int, SCALE as int);
        crate::math::lemma_unit_product_div(sy as int, cp as int);
        crate::math::lemma_unit_product_div(cy as int, cp as int);
    }
    let forward = Vec3 {
        x: crate::math::div_e(sy * cp, SCALE),
        y: sp,
        z: crate::math::div_e(cy * cp, SCALE),
    };
    let right = Vec3 { x: cy, y: 0, z: -sy };
    (forward, right)
}

/// The look state after a whole sequence of frame deltas.
pub open spec fn look_after(look: LookState, deltas: Seq<(int, int)>, sens: int, invert_y: bool)
    -> LookState
    decreases deltas.len(),
{
    if deltas.len() == 0 {
        look
    } else {
        let prev = look_after(look, deltas.drop_last(), sens, invert_y);
        look_step_spec(prev, deltas.last().0, deltas.last().1, sens, invert_y)
    }
}

/// Whatever look deltas arrive, pitch stays inside the clamped interval and
/// yaw within one turn at every frame: after any number `i` of the deltas the
/// state is still well formed.
pub proof fn lemma_pitch_always_clamped(
    look: LookState,
    deltas: Seq<(int, int)>,
    sens: int,
    invert_y: bool,
    i: int,
)
    requires
        look.wf(),
        0 <= i <= deltas.len(),
    ensures
        look_after(look, deltas.take(i), sens, invert_y).wf(),
    decreases i,
{
    if i == 0 {
        assert(deltas.take(0) =~= Seq::<(int, int)>::empty());
    } else {
        lemma_pitch_always_clamped(look, deltas, sens, invert_y, i - 1);
        assert(deltas.take(i).drop_last() =~= deltas.take(i - 1));
        let prev = look_after(look, deltas.take(i - 1), sens, invert_y);
        lemma_look_step_wf(prev, deltas.take(i).last().0, deltas.take(i).last().1, sens, invert_y);
    }
}

} // verus!
