//! Movement mode state machine: given the frame's intent, surface relation,
//! previous mode and previous velocity, selects the one active mode and the
//! next velocity.

use vstd::prelude::*;
use crate::math::{SCALE, MAG_MAX, div_e, lemma_frac_bound, lemma_mul_bound};
use crate::vec3::{Vec3, lemma_scaled_bound};
use crate::intent::Intent;
use crate::contact::SurfaceRelation;
use crate::config::{MovementConfig, WALLRUN_MS_MAX};
use vstd::arithmetic::div_mod::lemma_div_pos_is_pos;

verus! {

/// Largest frame delta accepted, in milliseconds.
pub const DT_MAX: i64 = 10_000;

/// The denominator of the air-control blend: a full blend factor held for a
/// whole second.
pub const BLEND_DEN: i64 = 1_000_000;

/// The five movement modes.  Exactly one is active on any frame.
#[derive(Clone, Copy, PartialEq, Eq, Structural, Debug)]
pub enum MovementMode {
    Grounded,
    Airborne,
    WallRunning,
    Climbing,
    Flying,
}

/// A movement mode is exactly one of the five variants: the mode predicates
/// never overlap and never leave a frame undefined.
pub proof fn lemma_one_mode_active(m: MovementMode)
    ensures
        (if m is Grounded { 1int } else { 0 }) + (if m is Airborne { 1int } else { 0 })
            + (if m is WallRunning { 1int } else { 0 }) + (if m is Climbing { 1int } else { 0 })
            + (if m is Flying { 1int } else { 0 }) == 1,
{
}

/// The machine's cross-frame state: the active mode, and how long the
/// current wall run has lasted (zero in every other mode).
#[derive(Clone, Copy, PartialEq, Eq, Structural, Debug)]
pub struct MachineState {
    pub mode: MovementMode,
    pub wallrun_ms: i64,
}

impl MachineState {
    /// The wall-run clock never outgrows the longest configurable run by
    /// more than one frame.
    pub open spec fn wf(self) -> bool {
        0 <= self.wallrun_ms <= WALLRUN_MS_MAX + DT_MAX
    }
}

/// The horizontal tangent of a wall normal: the normal turned a quarter turn
/// about the vertical axis, renormalized to one unit.
pub open spec fn tangent_spec(normal: Vec3) -> Vec3 {
    Vec3 { x: (-normal.z) as i64, y: 0, z: normal.x }.unit_spec()
}

/// The wall tangent, computed.
pub fn tangent(normal: &Vec3) -> (r: Vec3)
    requires
        normal.bounded(SCALE as int),
    ensures
        r == tangent_spec(*normal),
        r.bounded(SCALE as int),
{
    let v = Vec3 { x: -normal.z, y: 0, z: normal.x };
    v.unit_or_zero()
}

/// Grounded velocity: the horizontal intent at base speed, applied
/// instantaneously; vertically the jump impulse when jumping, else at rest.
pub open spec fn grounded_velocity_spec(cfg: MovementConfig, intent: Intent) -> Vec3 {
    let h = intent.dir_h.scaled_spec(cfg.base_speed as int, SCALE as int);
    Vec3 { x: h.x, y: if intent.jump { cfg.jump_impulse } else { 0 }, z: h.z }
}

/// One velocity component blended toward its target by the air-control
/// fraction held for `dt` milliseconds (never past the target).
pub open spec fn blend_spec(v: int, target: int, air_control: int, dt: int) -> int {
    let f = if air_control * dt > BLEND_DEN { BLEND_DEN as int } else { air_control * dt };
    v + (target - v) * f / (BLEND_DEN as int)
}

/// Airborne velocity: horizontal components blended toward the intent at
/// base speed under limited air control; vertical velocity integrates
/// gravity over the frame and is capped at the terminal falling speed.
pub open spec fn airborne_velocity_spec(cfg: MovementConfig, intent: Intent, vel: Vec3, dt: int)
    -> Vec3 {
    let target = intent.dir_h.scaled_spec(cfg.base_speed as int, SCALE as int);
    let w = vel.y - cfg.gravity * dt / 1000;
    Vec3 {
        x: blend_spec(vel.x as int, target.x as int, cfg.air_control as int, dt) as i64,
        y: (if w < -cfg.terminal_speed { -cfg.terminal_speed as int } else { w }) as i64,
        z: blend_spec(vel.z as int, target.z as int, cfg.air_control as int, dt) as i64,
    }
}

/// Wall-running velocity: the wall-run speed along the wall tangent, signed
/// by the intent's component along it; the fall is suspended.
pub open spec fn wallrun_velocity_spec(cfg: MovementConfig, intent: Intent, normal: Vec3)
    -> Vec3 {
    let t = tangent_spec(normal);
    let s = if intent.dir_h.dot_spec(t) >= 0 { 1int } else { -1int };
    let h = t.scaled_spec(s * cfg.wallrun_speed, SCALE as int);
    Vec3 { x: h.x, y: 0, z: h.z }
}

/// Climbing velocity: straight up the wall at climb speed, the horizontal
/// velocity damped to rest within the frame to pin the player to the wall.
pub open spec fn climbing_velocity_spec(cfg: MovementConfig) -> Vec3 {
    Vec3 { x: 0, y: cfg.climb_speed, z: 0 }
}

/// Flying velocity: the free three-dimensional intent direction (up and down
/// keys included) at fly speed; gravity contributes nothing.
pub open spec fn flying_velocity_spec(cfg: MovementConfig, intent: Intent) -> Vec3 {
    intent.dir_free.scaled_spec(cfg.fly_speed as int, SCALE as int)
}

/// Both horizontal velocity components are slow enough to start climbing.
pub open spec fn lateral_slow(vel: Vec3, cfg: MovementConfig) -> bool {
    &&& -cfg.climb_lateral_max <= vel.x <= cfg.climb_lateral_max
    &&& -cfg.climb_lateral_max <= vel.z <= cfg.climb_lateral_max
}

/// The wall-run clock carried into this frame: the run so far when already
/// wall-running, else a fresh start.
pub open spec fn wallrun_clock(st: MachineState) -> int {
    if st.mode is WallRunning {
        st.wallrun_ms as int
    } else {
        0
    }
}

/// The step taken when no fly toggle is in force: the surface relation and
/// the intent select the mode per the transition table.  Ground wins over
/// wall; against a wall, climbing (upward intent, low lateral speed) is
/// preferred over wall-running (intent along the tangent, fall below the
/// cutoff, run not yet timed out); everything else is airborne.
pub open spec fn surface_step_spec(
    st: MachineState,
    vel: Vec3,
    cfg: MovementConfig,
    intent: Intent,
    rel: SurfaceRelation,
    dt: int,
) -> (MachineState, Vec3) {
    match rel {
        SurfaceRelation::Ground => {
            if intent.jump {
                (
                    MachineState { mode: MovementMode::Airborne, wallrun_ms: 0 },
                    grounded_velocity_spec(cfg, intent),
                )
            } else {
                (
                    MachineState { mode: MovementMode::Grounded, wallrun_ms: 0 },
                    grounded_velocity_spec(cfg, intent),
                )
            }
        },
        SurfaceRelation::Wall { normal } => {
            let t = tangent_spec(normal);
            if intent.up && lateral_slow(vel, cfg) {
                (
                    MachineState { mode: MovementMode::Climbing, wallrun_ms: 0 },
                    climbing_velocity_spec(cfg),
                )
            } else if intent.dir_h.dot_spec(t) != 0 && vel.y >= -cfg.wallrun_fall_cutoff
                && wallrun_clock(st) < cfg.wallrun_max_ms {
                (
                    MachineState {
                        mode: MovementMode::WallRunning,
                        wallrun_ms: (wallrun_clock(st) + dt) as i64,
                    },
                    wallrun_velocity_spec(cfg, intent, normal),
                )
            } else {
                (
                    MachineState { mode: MovementMode::Airborne, wallrun_ms: 0 },
                    airborne_velocity_spec(cfg, intent, vel, dt),
                )
            }
        },
        SurfaceRelation::Free => {
            (
                MachineState { mode: MovementMode::Airborne, wallrun_ms: 0 },
                airborne_velocity_spec(cfg, intent, vel, dt),
            )
        },
    }
}

/// One frame of the state machine.  The fly toggle is evaluated first: it
/// enters the fly mode from any other mode and, pressed again, hands control
/// back to the surface rules the same frame.  While flying, velocity follows
/// the intent alone.
pub open spec fn step_spec(
    st: MachineState,
    vel: Vec3,
    cfg: MovementConfig,
    intent: Intent,
    rel: SurfaceRelation,
    dt: int,
) -> (MachineState, Vec3) {
    if intent.fly_toggle && !(st.mode is Flying) {
        (
            MachineState { mode: MovementMode::Flying, wallrun_ms: 0 },
            flying_velocity_spec(cfg, intent),
        )
    } else if !intent.fly_toggle && st.mode is Flying {
        (
            MachineState { mode: MovementMode::Flying, wallrun_ms: 0 },
            flying_velocity_spec(cfg, intent),
        )
    } else {
        surface_step_spec(st, vel, cfg, intent, rel, dt)
    }
}

/// One blended velocity component.
fn blend(v: i64, target: i64, air_control: i64, dt: i64) -> (r: i64)
    requires
        -MAG_MAX <= v <= MAG_MAX,
        -MAG_MAX <= target <= MAG_MAX,
        0 <= air_control <= SCALE,
        0 <= dt <= DT_MAX,
    ensures
        r == blend_spec(v as int, target as int, air_control as int, dt as int),
        -MAG_MAX <= r <= MAG_MAX,
{
    proof {
        lemma_mul_bound(air_control as int, dt as int, SCALE as int, DT_MAX as int);
    }
    let raw_f = air_control * dt;
    let f = if raw_f > BLEND_DEN {
        BLEND_DEN
    } else {
        raw_f
    };
    proof {
        lemma_mul_bound((target - v) as int, f as int, 2 * MAG_MAX as int, BLEND_DEN as int);
    }
    let part = div_e((target - v) * f, BLEND_DEN);
    proof {
        lemma_frac_bound((target - v) as int, f as int, BLEND_DEN as int);
    }
    v + part
}

/// Grounded velocity, computed.
fn grounded_velocity(cfg: &MovementConfig, intent: &Intent) -> (r: Vec3)
    requires
        cfg.wf(),
        intent.wf(),
    ensures
        r == grounded_velocity_spec(*cfg, *intent),
        r.bounded(MAG_MAX as int),
{
    proof {
        lemma_scaled_bound(intent.dir_h, cfg.base_speed as int, SCALE as int, MAG_MAX as int);
    }
    let h = intent.dir_h.scaled(cfg.base_speed, SCALE);
    Vec3 { x: h.x, y: if intent.jump { cfg.jump_impulse } else { 0 }, z: h.z }
}

/// Airborne velocity, computed.
fn airborne_velocity(cfg: &MovementConfig, intent: &Intent, vel: &Vec3, dt: i64) -> (r: Vec3)
    requires
        cfg.wf(),
        intent.wf(),
        vel.bounded(MAG_MAX as int),
        0 <= dt <= DT_MAX,
    ensures
        r == airborne_velocity_spec(*cfg, *intent, *vel, dt as int),
        r.bounded(MAG_MAX as int),
{
    proof {
        lemma_scaled_bound(intent.dir_h, cfg.base_speed as int, SCALE as int, MAG_MAX as int);
    }
    let target = intent.dir_h.scaled(cfg.base_speed, SCALE);
    let x = blend(vel.x, target.x, cfg.air_control, dt);
    let z = blend(vel.z, target.z, cfg.air_control, dt);
    proof {
        lemma_mul_bound(cfg.gravity as int, dt as int, MAG_MAX as int, DT_MAX as int);
    }
    let fall = div_e(cfg.gravity * dt, 1000);
    proof {
        lemma_div_pos_is_pos(cfg.gravity as int * dt as int, 1000);
    }
    let w = vel.y - fall;
    let y = if w < -cfg.terminal_speed {
        -cfg.terminal_speed
    } else {
        w
    };
    Vec3 { x, y, z }
}

/// Wall-running velocity, computed.
fn wallrun_velocity(cfg: &MovementConfig, intent: &Intent, normal: &Vec3) -> (r: Vec3)
    requires
        cfg.wf(),
        intent.wf(),
        normal.bounded(SCALE as int),
    ensures
        r == wallrun_velocity_spec(*cfg, *intent, *normal),
        r.bounded(MAG_MAX as int),
{
    let t = tangent(normal);
    let d = intent.dir_h.dot(&t);
    let speed = if d >= 0 {
        cfg.wallrun_speed
    } else {
        -cfg.wallrun_speed
    };
    proof {
        let s = if intent.dir_h.dot_spec(tangent_spec(*normal)) >= 0 { 1int } else { -1int };
        assert(s * cfg.wallrun_speed == speed as int) by (nonlinear_arith)
            requires
                s == if d >= 0 { 1int } else { -1int },
                speed as int == if d >= 0 { cfg.wallrun_speed as int } else {
                    -(cfg.wallrun_speed as int)
                },
                d as int == intent.dir_h.dot_spec(tangent_spec(*normal)),
        ;
        lemma_scaled_bound(tangent_spec(*normal), speed as int, SCALE as int, MAG_MAX as int);
    }
    let h = t.scaled(speed, SCALE);
    Vec3 { x: h.x, y: 0, z: h.z }
}

/// Flying velocity, computed.
fn flying_velocity(cfg: &MovementConfig, intent: &Intent) -> (r: Vec3)
    requires
        cfg.wf(),
        intent.wf(),
    ensures
        r == flying_velocity_spec(*cfg, *intent),
        r.bounded(MAG_MAX as int),
{
    proof {
        lemma_scaled_bound(intent.dir_free, cfg.fly_speed as int, SCALE as int, MAG_MAX as int);
    }
    intent.dir_free.scaled(cfg.fly_speed, SCALE)
}

/// Advances the state machine by one frame: picks the one active mode and
/// the next velocity from the gated intent, the surface relation, the
/// previous mode and the previous velocity.
pub fn step(
    st: &MachineState,
    vel: &Vec3,
    cfg: &MovementConfig,
    intent: &Intent,
    rel: &SurfaceRelation,
    dt: i64,
) -> (r: (MachineState, Vec3))
    requires
        st.wf(),
        cfg.wf(),
        intent.wf(),
        vel.bounded(MAG_MAX as int),
        0 <= dt <= DT_MAX,
        rel matches SurfaceRelation::Wall { normal } ==> normal.bounded(SCALE as int),
    ensures
        r == step_spec(*st, *vel, *cfg, *intent, *rel, dt as int),
        r.0.wf(),
        r.1.bounded(MAG_MAX as int),
        r.0.mode is Flying ==> r.1 == flying_velocity_spec(*cfg, *intent),
{
    let was_flying = match st.mode {
        MovementMode::Flying => true,
        _ => false,
    };
    if intent.fly_toggle != was_flying {
        // Entering fly mode, or staying in it without a toggle.
        let v = flying_velocity(cfg, intent);
        (MachineState { mode: MovementMode::Flying, wallrun_ms: 0 }, v)
    } else {
        match *rel {
            SurfaceRelation::Ground => {
                let v = grounded_velocity(cfg, intent);
                let mode = if intent.jump {
                    MovementMode::Airborne
                } else {
                    MovementMode::Grounded
                };
                (MachineState { mode, wallrun_ms: 0 }, v)
            },
            SurfaceRelation::Wall { normal } => {
                let t = tangent(&normal);
                let clock = if was_flying {
                    0
                } else {
                    match st.mode {
                        MovementMode::WallRunning => st.wallrun_ms,
                        _ => 0,
                    }
                };
                let lateral_ok = -cfg.climb_lateral_max <= vel.x && vel.x <= cfg.climb_lateral_max
                    && -cfg.climb_lateral_max <= vel.z && vel.z <= cfg.climb_lateral_max;
                if intent.up && lateral_ok {
                    let v = Vec3 { x: 0, y: cfg.climb_speed, z: 0 };
                    (MachineState { mode: MovementMode::Climbing, wallrun_ms: 0 }, v)
                } else if intent.dir_h.dot(&t) != 0 && vel.y >= -cfg.wallrun_fall_cutoff
                    && clock < cfg.wallrun_max_ms {
                    let v = wallrun_velocity(cfg, intent, &normal);
                    (
                        MachineState { mode: MovementMode::WallRunning, wallrun_ms: clock + dt },
                        v,
                    )
                } else {
                    let v = airborne_velocity(cfg, intent, vel, dt);
                    (MachineState { mode: MovementMode::Airborne, wallrun_ms: 0 }, v)
                }
            },
            SurfaceRelation::Free => {
                let v = airborne_velocity(cfg, intent, vel, dt);
                (MachineState { mode: MovementMode::Airborne, wallrun_ms: 0 }, v)
            },
        }
    }
}

/// The air-control blend never leaves the interval between the old velocity
/// component and its target.
proof fn lemma_blend_between(v: int, target: int, air_control: int, dt: int)
    requires
        0 <= air_control,
        0 <= dt,
    ensures
        blend_spec(v, target, air_control, dt)
            >= if v <= target { v } else { target },
        blend_spec(v, target, air_control, dt)
            <= if v <= target { target } else { v },
{
    let den = BLEND_DEN as int;
    assert(air_control * dt >= 0) by (nonlinear_arith)
        requires
            0 <= air_control,
            0 <= dt,
    ;
    let f = if air_control * dt > den { den } else { air_control * dt };
    lemma_frac_bound(target - v, f, den);
}

/// The speed cap: a step never commands a velocity component beyond the
/// largest of the configured speeds and the incoming velocity.  Any cap that
/// dominates the tunables and the previous frame's velocity still holds
/// after the frame, in every mode — wall-running included, whose multiplier
/// is itself one of the capped tunables.
pub proof fn lemma_speed_cap(
    st: MachineState,
    vel: Vec3,
    cfg: MovementConfig,
    intent: Intent,
    rel: SurfaceRelation,
    dt: int,
    cap: int,
)
    requires
        cfg.wf(),
        intent.wf(),
        0 <= dt <= DT_MAX,
        vel.bounded(cap),
        cap <= MAG_MAX,
        cfg.base_speed <= cap,
        cfg.wallrun_speed <= cap,
        cfg.climb_speed <= cap,
        cfg.fly_speed <= cap,
        cfg.jump_impulse <= cap,
        cfg.terminal_speed <= cap,
        rel matches SurfaceRelation::Wall { normal } ==> normal.bounded(SCALE as int),
    ensures
        step_spec(st, vel, cfg, intent, rel, dt).1.bounded(cap),
{
    let s = SCALE as int;
    lemma_scaled_bound(intent.dir_free, cfg.fly_speed as int, s, cap);
    lemma_scaled_bound(intent.dir_h, cfg.base_speed as int, s, cap);
    let target = intent.dir_h.scaled_spec(cfg.base_speed as int, s);
    lemma_blend_between(vel.x as int, target.x as int, cfg.air_control as int, dt);
    lemma_blend_between(vel.z as int, target.z as int, cfg.air_control as int, dt);
    lemma_div_pos_is_pos(cfg.gravity as int * dt, 1000);
    lemma_mul_bound(cfg.gravity as int, dt, MAG_MAX as int, DT_MAX as int);
    match rel {
        SurfaceRelation::Wall { normal } => {
            crate::vec3::lemma_unit_spec_bounded(
                Vec3 { x: (-normal.z) as i64, y: 0, z: normal.x },
            );
            let t = tangent_spec(normal);
            let sign = if intent.dir_h.dot_spec(t) >= 0 { 1int } else { -1int };
            assert(-cap <= sign * cfg.wallrun_speed <= cap) by (nonlinear_arith)
                requires
                    sign == 1 || sign == -1,
                    0 <= cfg.wallrun_speed <= cap,
            ;
            lemma_scaled_bound(t, sign * cfg.wallrun_speed, s, cap);
        },
        _ => {},
    }
}

/// Toggling the fly mode twice hands the player back to the surface rules:
/// the first toggle enters the fly mode from any other mode; the second,
/// pressed with an otherwise idle intent, returns exactly the mode the
/// contact state then indicates — grounded on ground, else airborne with
/// gravity acting again — whatever velocity the fly segment ended with.
pub proof fn lemma_fly_toggle_round_trip(
    st: MachineState,
    vel: Vec3,
    vel_mid: Vec3,
    cfg: MovementConfig,
    intent_on: Intent,
    intent_off: Intent,
    rel_on: SurfaceRelation,
    rel_off: SurfaceRelation,
    dt_on: int,
    dt_off: int,
)
    requires
        !(st.mode is Flying),
        intent_on.fly_toggle,
        intent_off.fly_toggle,
        !intent_off.jump,
        !intent_off.up,
        intent_off.dir_h.is_zero_spec(),
    ensures
        step_spec(st, vel, cfg, intent_on, rel_on, dt_on).0.mode is Flying,
        ({
            let mid = step_spec(st, vel, cfg, intent_on, rel_on, dt_on).0;
            let out = step_spec(mid, vel_mid, cfg, intent_off, rel_off, dt_off);
            &&& (out.0.mode is Grounded <==> rel_off is Ground)
            &&& !(rel_off is Ground) ==> out.0.mode is Airborne
            &&& !(rel_off is Ground) ==> out.1
                == airborne_velocity_spec(cfg, intent_off, vel_mid, dt_off)
        }),
{
    let mid = step_spec(st, vel, cfg, intent_on, rel_on, dt_on).0;
    let out = step_spec(mid, vel_mid, cfg, intent_off, rel_off, dt_off);
    match rel_off {
        SurfaceRelation::Ground => {},
        SurfaceRelation::Wall { normal } => {
            let t = tangent_spec(normal);
            assert(intent_off.dir_h.dot_spec(t) == 0);
        },
        SurfaceRelation::Free => {},
    }
}

} // verus!
