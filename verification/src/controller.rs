//! The per-player controller: owns everything the movement core carries
//! across frames and advances it by one frame at a time.

use vstd::prelude::*;
use crate::math::MAG_MAX;
use crate::vec3::Vec3;
use crate::look::{LookState, look_step_spec, apply_look_delta, basis_vectors,
    basis_vectors_spec, PI_URAD, PITCH_LIMIT_URAD, DELTA_MAX};
use crate::gate::{GateState, GateEvents, gate_step_spec, gate_recenter_spec, gate_wf,
    update_gate, released_state};
use crate::intent::{RawInput, Basis, sample_intent_spec, sample_intent, gated_intent_spec,
    gated_intent, neutral_intent_spec};
use crate::contact::{Contact, classify_spec, classify, has_ground, SurfaceRelation};
use crate::config::MovementConfig;
use crate::machine::{MachineState, MovementMode, step_spec, step, grounded_velocity_spec,
    DT_MAX};
use crate::math::SCALE;

verus! {

/// The cross-frame state of one player: the immutable tunables, the look
/// direction, the machine state, the last commanded velocity, and the
/// input gate.
#[derive(Clone, Copy, PartialEq, Eq, Structural, Debug)]
pub struct PlayerController {
    pub config: MovementConfig,
    pub look: LookState,
    pub state: MachineState,
    pub velocity: Vec3,
    pub gate: GateState,
}

impl PlayerController {
    /// Every part is well formed and the velocity within the proved bounds.
    pub open spec fn wf(self) -> bool {
        &&& self.config.wf()
        &&& self.look.wf()
        &&& self.state.wf()
        &&& self.velocity.bounded(MAG_MAX as int)
        &&& gate_wf(self.gate)
    }

    /// A freshly spawned player: at rest, airborne until the first contact
    /// report, input released until the window captures the cursor.
    pub fn spawn(config: MovementConfig, yaw: i64, pitch: i64) -> (c: PlayerController)
        requires
            config.wf(),
            -PI_URAD < yaw <= PI_URAD,
            -PITCH_LIMIT_URAD <= pitch <= PITCH_LIMIT_URAD,
        ensures
            c.config == config,
            c.look == (LookState { yaw, pitch }),
            c.state == (MachineState { mode: MovementMode::Airborne, wallrun_ms: 0 }),
            c.velocity == (Vec3 { x: 0, y: 0, z: 0 }),
            c.gate == released_state(),
            c.wf(),
    {
        PlayerController {
            config,
            look: LookState { yaw, pitch },
            state: MachineState { mode: MovementMode::Airborne, wallrun_ms: 0 },
            velocity: Vec3 { x: 0, y: 0, z: 0 },
            gate: GateState { input_enabled: false, cursor_locked: false, cursor_visible: true },
        }
    }
}

/// One whole frame of the core, in evaluation order: the input gate digests
/// the frame's window events; the look state integrates the mouse delta
/// while input is live and spans the frame's basis; the raw input is
/// sampled into an intent over that basis and gated; the contacts are
/// classified against velocity and intent; and the state machine picks the
/// mode and the velocity.  The tunables never change.
pub open spec fn frame_spec(
    c: PlayerController,
    raw: RawInput,
    events: GateEvents,
    contacts: Seq<Contact>,
    dt: int,
) -> PlayerController {
    let gate = gate_step_spec(c.gate, events);
    let enabled = gate.input_enabled;
    let look = if enabled {
        look_step_spec(
            c.look,
            raw.look_dx as int,
            raw.look_dy as int,
            c.config.sensitivity as int,
            c.config.invert_y,
        )
    } else {
        c.look
    };
    let spanned = basis_vectors_spec(look);
    let basis = Basis { forward: spanned.0, right: spanned.1 };
    let intent = gated_intent_spec(sample_intent_spec(raw, basis), enabled);
    let rel = classify_spec(contacts, c.velocity, intent.dir_h);
    let stepped = step_spec(c.state, c.velocity, c.config, intent, rel, dt);
    PlayerController {
        config: c.config,
        look,
        state: stepped.0,
        velocity: stepped.1,
        gate,
    }
}

/// Advances the player by one frame; returns whether the application should
/// re-center its cursor.
pub fn frame(
    c: &mut PlayerController,
    raw: &RawInput,
    events: &GateEvents,
    contacts: &Vec<Contact>,
    dt: i64,
) -> (recenter: bool)
    requires
        old(c).wf(),
        -SCALE <= raw.axis_x <= SCALE,
        -SCALE <= raw.axis_z <= SCALE,
        -DELTA_MAX <= raw.look_dx <= DELTA_MAX,
        -DELTA_MAX <= raw.look_dy <= DELTA_MAX,
        forall|i: int| 0 <= i < contacts@.len() ==> (#[trigger] contacts@[i]).wf(),
        0 <= dt <= DT_MAX,
    ensures
        *final(c) == frame_spec(*old(c), *raw, *events, contacts@, dt as int),
        final(c).wf(),
        final(c).config == old(c).config,
        recenter == gate_recenter_spec(old(c).gate, *events),
{
    let mut gate = c.gate;
    let recenter = update_gate(&mut gate, events);
    c.gate = gate;
    let enabled = c.gate.input_enabled;
    if enabled {
        let look = apply_look_delta(
            &c.look,
            raw.look_dx,
            raw.look_dy,
            c.config.sensitivity,
            c.config.invert_y,
        );
        c.look = look;
    }
    let (forward, right) = basis_vectors(&c.look);
    let basis = Basis { forward, right };
    let sampled = sample_intent(raw, &basis);
    let intent = gated_intent(&sampled, enabled);
    let rel = classify(contacts, &c.velocity, &intent.dir_h);
    let stepped = step(&c.state, &c.velocity, &c.config, &intent, &rel, dt);
    c.state = stepped.0;
    c.velocity = stepped.1;
    recenter
}

/// No frame, whatever it carries, ever changes the tunables.
pub proof fn lemma_frame_preserves_config(
    c: PlayerController,
    raw: RawInput,
    events: GateEvents,
    contacts: Seq<Contact>,
    dt: int,
)
    ensures
        frame_spec(c, raw, events, contacts, dt).config == c.config,
{
}

/// Toggling the input gate off, on and off again across three frames —
/// whatever else those frames carry — leaves the movement tunables exactly
/// as they were: the configuration is immutable under gate toggling.
pub proof fn lemma_gate_toggle_keeps_config(
    c: PlayerController,
    raw1: RawInput,
    raw2: RawInput,
    raw3: RawInput,
    e1: GateEvents,
    e2: GateEvents,
    e3: GateEvents,
    contacts1: Seq<Contact>,
    contacts2: Seq<Contact>,
    contacts3: Seq<Contact>,
    dt: int,
)
    requires
        e1.toggle_pressed,
        e2.toggle_pressed,
        e3.toggle_pressed,
    ensures
        ({
            let c1 = frame_spec(c, raw1, e1, contacts1, dt);
            let c2 = frame_spec(c1, raw2, e2, contacts2, dt);
            let c3 = frame_spec(c2, raw3, e3, contacts3, dt);
            c3.config == c.config
        }),
{
    let c1 = frame_spec(c, raw1, e1, contacts1, dt);
    let c2 = frame_spec(c1, raw2, e2, contacts2, dt);
    lemma_frame_preserves_config(c, raw1, e1, contacts1, dt);
    lemma_frame_preserves_config(c1, raw2, e2, contacts2, dt);
    lemma_frame_preserves_config(c2, raw3, e3, contacts3, dt);
}

/// A frame of rest is idempotent on a grounded player: zero axes, zero look
/// delta and no window events leave the look state and the input gate exactly as
/// they were, the horizontal velocity at rest, and the player grounded.
pub proof fn lemma_idle_grounded_frame(
    c: PlayerController,
    raw: RawInput,
    events: GateEvents,
    contacts: Seq<Contact>,
    dt: int,
)
    requires
        c.wf(),
        !(c.state.mode is Flying),
        raw.axis_x == 0,
        raw.axis_z == 0,
        !raw.jump,
        !raw.up,
        !raw.down,
        !raw.fly_toggle,
        raw.look_dx == 0,
        raw.look_dy == 0,
        !events.toggle_pressed,
        !events.escape_pressed,
        !events.click_pressed,
        has_ground(contacts),
    ensures
        ({
            let c2 = frame_spec(c, raw, events, contacts, dt);
            &&& c2.gate == c.gate
            &&& c2.look == c.look
            &&& c2.velocity == (Vec3 { x: 0, y: 0, z: 0 })
            &&& c2.state.mode is Grounded
        }),
{
    let s = SCALE as int;
    vstd::arithmetic::div_mod::lemma_div_of0(s);
    // With no events the input gate is untouched (a live one is locked, so the
    // lost-lock release cannot fire).
    assert(gate_step_spec(c.gate, events) == c.gate);
    // A zero delta moves neither yaw nor pitch.
    assert(0 * (c.config.sensitivity as int) == 0);
    crate::look::lemma_wrap_identity(c.look.yaw as int);
    assert(look_step_spec(c.look, 0, 0, c.config.sensitivity as int, c.config.invert_y)
        == c.look);
    // Zero axes sample to the neutral intent, whatever basis the look spans.
    let zero = Vec3 { x: 0, y: 0, z: 0 };
    let spanned = basis_vectors_spec(c.look);
    let basis = Basis { forward: spanned.0, right: spanned.1 };
    assert(basis.right.horizontal_spec().scaled_spec(0, s) == zero);
    assert(basis.forward.horizontal_spec().scaled_spec(0, s) == zero);
    assert(basis.right.scaled_spec(0, s) == zero);
    assert(basis.forward.scaled_spec(0, s) == zero);
    let sampled = sample_intent_spec(raw, basis);
    assert(sampled == neutral_intent_spec());
    let intent = gated_intent_spec(sampled, gate_step_spec(c.gate, events).input_enabled);
    assert(intent == neutral_intent_spec());
    // Ground contact wins, and the grounded rule at zero intent is rest.
    let rel = classify_spec(contacts, c.velocity, intent.dir_h);
    assert(rel is Ground);
    assert(intent.dir_h.scaled_spec(c.config.base_speed as int, s) == zero) by {
        assert(0 * (c.config.base_speed as int) == 0);
    }
    assert(grounded_velocity_spec(c.config, intent) == zero);
}

/// While the input gate ends a frame disabled, no raw input reaches the core: two
/// frames that differ only in the keys and axes held produce the very same
/// player state.
pub proof fn lemma_gate_blocks_input(
    c: PlayerController,
    raw1: RawInput,
    raw2: RawInput,
    events: GateEvents,
    contacts: Seq<Contact>,
    dt: int,
)
    requires
        !gate_step_spec(c.gate, events).input_enabled,
    ensures
        frame_spec(c, raw1, events, contacts, dt) == frame_spec(c, raw2, events, contacts, dt),
{
    let spanned = basis_vectors_spec(c.look);
    let basis = Basis { forward: spanned.0, right: spanned.1 };
    assert(gated_intent_spec(sample_intent_spec(raw1, basis), false) == neutral_intent_spec());
    assert(gated_intent_spec(sample_intent_spec(raw2, basis), false) == neutral_intent_spec());
}

} // verus!
