//! Input sampling: turns the frame's raw axes and action keys into a
//! normalized movement intent in world space, and gates it behind the
//! input-enable flag.

use vstd::prelude::*;
use crate::math::SCALE;
use crate::vec3::Vec3;

verus! {

/// The raw state the application samples from its input devices each frame,
/// after mapping its own key bindings: movement axes in `[-SCALE, SCALE]`
/// (positive `axis_x` is rightward, positive `axis_z` is forward), the
/// action keys, and the frame's mouse delta in device counts.
#[derive(Clone, Copy, PartialEq, Eq, Structural, Debug)]
pub struct RawInput {
    pub axis_x: i64,
    pub axis_z: i64,
    pub jump: bool,
    pub up: bool,
    pub down: bool,
    pub fly_toggle: bool,
    pub look_dx: i64,
    pub look_dy: i64,
}

/// The look basis the movement intent is expressed against: the forward and
/// right unit vectors (scaled by `SCALE`) derived from yaw and pitch.
#[derive(Clone, Copy, PartialEq, Eq, Structural, Debug)]
pub struct Basis {
    pub forward: Vec3,
    pub right: Vec3,
}

impl Basis {
    /// Both basis vectors are componentwise within one unit.
    pub open spec fn wf(self) -> bool {
        &&& self.forward.bounded(SCALE as int)
        &&& self.right.bounded(SCALE as int)
    }
}

/// A normalized movement request: a horizontal world direction for walking
/// modes, a free world direction for flying, and the action flags.  Both
/// directions are unit vectors scaled by `SCALE`, or zero.
#[derive(Clone, Copy, PartialEq, Eq, Structural, Debug)]
pub struct Intent {
    pub dir_h: Vec3,
    pub dir_free: Vec3,
    pub jump: bool,
    pub up: bool,
    pub down: bool,
    pub fly_toggle: bool,
}

impl Intent {
    /// Both directions are componentwise within one unit.
    pub open spec fn wf(self) -> bool {
        &&& self.dir_h.bounded(SCALE as int)
        &&& self.dir_free.bounded(SCALE as int)
    }
}

/// The intent of a frame on which no input is live.
pub open spec fn neutral_intent_spec() -> Intent {
    Intent {
        dir_h: Vec3 { x: 0, y: 0, z: 0 },
        dir_free: Vec3 { x: 0, y: 0, z: 0 },
        jump: false,
        up: false,
        down: false,
        fly_toggle: false,
    }
}

/// The intent of a frame on which no input is live.
pub fn neutral_intent() -> (r: Intent)
    ensures
        r == neutral_intent_spec(),
{
    Intent {
        dir_h: Vec3::zero(),
        dir_free: Vec3::zero(),
        jump: false,
        up: false,
        down: false,
        fly_toggle: false,
    }
}

/// The requested world direction: the axes blended over the given basis
/// vectors and renormalized to one unit (or zero when no axis is pressed).
pub open spec fn compose_dir_spec(fwd: Vec3, right: Vec3, ax: int, az: int) -> Vec3 {
    right.scaled_spec(ax, SCALE as int).add_spec(fwd.scaled_spec(az, SCALE as int)).unit_spec()
}

/// Blends the axes over a basis and renormalizes.
pub fn compose_dir(fwd: &Vec3, right: &Vec3, ax: i64, az: i64) -> (r: Vec3)
    requires
        fwd.bounded(SCALE as int),
        right.bounded(SCALE as int),
        -SCALE <= ax <= SCALE,
        -SCALE <= az <= SCALE,
    ensures
        r == compose_dir_spec(*fwd, *right, ax as int, az as int),
        r.bounded(SCALE as int),
{
    let a = right.scaled(ax, SCALE);
    let b = fwd.scaled(az, SCALE);
    proof {
        crate::vec3::lemma_scaled_bound(*right, ax as int, SCALE as int, SCALE as int);
        crate::vec3::lemma_scaled_bound(*fwd, az as int, SCALE as int, SCALE as int);
    }
    let sum = a.add(&b);
    sum.unit_or_zero()
}

/// The intent a raw frame asks for: the horizontal direction is composed
/// over the horizontal projections of the basis, the free direction over the
/// full basis with the up and down keys contributing vertically.
pub open spec fn sample_intent_spec(raw: RawInput, basis: Basis) -> Intent {
    let lift = (if raw.up { SCALE as int } else { 0 }) - (if raw.down { SCALE as int } else { 0 });
    let free_raw = basis.right.scaled_spec(raw.axis_x as int, SCALE as int)
        .add_spec(basis.forward.scaled_spec(raw.axis_z as int, SCALE as int));
    Intent {
        dir_h: compose_dir_spec(
            basis.forward.horizontal_spec(),
            basis.right.horizontal_spec(),
            raw.axis_x as int,
            raw.axis_z as int,
        ),
        dir_free: Vec3 {
            x: free_raw.x,
            y: (free_raw.y + lift) as i64,
            z: free_raw.z,
        }.unit_spec(),
        jump: raw.jump,
        up: raw.up,
        down: raw.down,
        fly_toggle: raw.fly_toggle,
    }
}

/// Samples the frame's raw input into a normalized intent.
pub fn sample_intent(raw: &RawInput, basis: &Basis) -> (r: Intent)
    requires
        basis.wf(),
        -SCALE <= raw.axis_x <= SCALE,
        -SCALE <= raw.axis_z <= SCALE,
    ensures
        r == sample_intent_spec(*raw, *basis),
        r.wf(),
{
    let fwd_h = basis.forward.horizontal();
    let right_h = basis.right.horizontal();
    let dir_h = compose_dir(&fwd_h, &right_h, raw.axis_x, raw.axis_z);
    let a = basis.right.scaled(raw.axis_x, SCALE);
    let b = basis.forward.scaled(raw.axis_z, SCALE);
    proof {
        crate::vec3::lemma_scaled_bound(basis.right, raw.axis_x as int, SCALE as int, SCALE as int);
        crate::vec3::lemma_scaled_bound(basis.forward, raw.axis_z as int, SCALE as int, SCALE as int);
    }
    let free_raw = a.add(&b);
    let lift = (if raw.up { SCALE } else { 0 }) - (if raw.down { SCALE } else { 0 });
    let free = Vec3 { x: free_raw.x, y: free_raw.y + lift, z: free_raw.z };
    let dir_free = free.unit_or_zero();
    Intent {
        dir_h,
        dir_free,
        jump: raw.jump,
        up: raw.up,
        down: raw.down,
        fly_toggle: raw.fly_toggle,
    }
}

/// The intent that reaches the state machine: the sampled one while input is
/// enabled, the neutral one otherwise.
pub open spec fn gated_intent_spec(i: Intent, enabled: bool) -> Intent {
    if enabled {
        i
    } else {
        neutral_intent_spec()
    }
}

/// Gates an intent behind the input-enable flag: while input is disabled,
/// nothing of the raw input survives, however many keys are held.
pub fn gated_intent(i: &Intent, enabled: bool) -> (r: Intent)
    ensures
        r == gated_intent_spec(*i, enabled),
{
    if enabled {
        *i
    } else {
        neutral_intent()
    }
}

} // verus!
