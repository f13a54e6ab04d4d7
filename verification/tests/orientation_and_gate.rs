//! Orientation, gate and fixed-point arithmetic behaviour on concrete values.

use movement_core::config::MovementConfig;
use movement_core::gate::{update_gate, GateEvents, GateState};
use movement_core::look::{
    apply_look_delta, basis_vectors, cosine, sine, wrap_angle, LookState, PITCH_LIMIT_URAD,
    PI_URAD, TAU_URAD,
};
use movement_core::math::{clamp, div_e, isqrt, rem_e};
use movement_core::vec3::Vec3;

fn no_events() -> GateEvents {
    GateEvents {
        toggle_pressed: false,
        escape_pressed: false,
        click_pressed: false,
        overlay_active: false,
    }
}

fn released() -> GateState {
    GateState {
        input_enabled: false,
        cursor_locked: false,
        cursor_visible: true,
    }
}

#[test]
fn clamp_and_division_basics() {
    assert_eq!(clamp(5, 0, 10), 5);
    assert_eq!(clamp(-3, 0, 10), 0);
    assert_eq!(clamp(42, 0, 10), 10);
    assert_eq!(div_e(7, 2), 3);
    assert_eq!(div_e(-7, 2), -4); // Euclidean: rounds toward minus infinity
    assert_eq!(rem_e(-7, 2), 1);
    assert_eq!(rem_e(7, 2), 1);
}

#[test]
fn integer_square_roots() {
    assert_eq!(isqrt(0), 0);
    assert_eq!(isqrt(1), 1);
    assert_eq!(isqrt(999_999), 999);
    assert_eq!(isqrt(1_000_000), 1000);
    assert_eq!(isqrt(3_999_999_999_999), 1_999_999);
}

#[test]
fn unit_vector_of_three_four_five() {
    let v = Vec3 {
        x: 3000,
        y: 0,
        z: 4000,
    };
    let u = v.unit_or_zero();
    assert_eq!(u, Vec3 { x: 600, y: 0, z: 800 });
    let z = Vec3 { x: 0, y: 0, z: 0 };
    assert_eq!(z.unit_or_zero(), z);
}

#[test]
fn yaw_wraps_at_half_turn() {
    assert_eq!(wrap_angle(0), 0);
    assert_eq!(wrap_angle(PI_URAD), PI_URAD);
    assert_eq!(wrap_angle(PI_URAD + 1), PI_URAD + 1 - TAU_URAD);
    assert_eq!(wrap_angle(TAU_URAD), 0);
    assert_eq!(wrap_angle(-PI_URAD), PI_URAD);
    assert_eq!(wrap_angle(10 * TAU_URAD + 123), 123);
}

#[test]
fn pitch_clamps_under_any_delta_sequence() {
    // A long one-directional drag may never push pitch past the limit.
    let mut look = LookState { yaw: 0, pitch: 0 };
    for _ in 0..50 {
        look = apply_look_delta(&look, 0, 100_000, 5000, true);
        assert!(look.pitch.abs() <= PITCH_LIMIT_URAD);
        assert!(-PI_URAD < look.yaw && look.yaw <= PI_URAD);
    }
    assert_eq!(look.pitch, -PITCH_LIMIT_URAD);
    for _ in 0..100 {
        look = apply_look_delta(&look, 33_000, -70_000, 5000, true);
        assert!(look.pitch.abs() <= PITCH_LIMIT_URAD);
        assert!(-PI_URAD < look.yaw && look.yaw <= PI_URAD);
    }
    assert_eq!(look.pitch, PITCH_LIMIT_URAD);
}

#[test]
fn look_delta_integrates_exactly() {
    let look = LookState { yaw: 0, pitch: 0 };
    let moved = apply_look_delta(&look, 200, 100, 5000, true);
    assert_eq!(moved.yaw, 1_000_000); // 200 counts at 5000 urad each
    assert_eq!(moved.pitch, -500_000); // inverted vertical axis
    let moved_plain = apply_look_delta(&look, 200, 100, 5000, false);
    assert_eq!(moved_plain.pitch, 500_000);
    // A zero delta is the identity.
    let idle = apply_look_delta(&moved, 0, 0, 5000, true);
    assert_eq!(idle, moved);
}

#[test]
fn toggle_key_flips_capture() {
    let mut gate = released();
    let recenter = update_gate(
        &mut gate,
        &GateEvents {
            toggle_pressed: true,
            ..no_events()
        },
    );
    assert!(recenter);
    assert!(gate.input_enabled && gate.cursor_locked && !gate.cursor_visible);
    let recenter = update_gate(
        &mut gate,
        &GateEvents {
            toggle_pressed: true,
            ..no_events()
        },
    );
    assert!(!recenter);
    assert!(!gate.input_enabled && !gate.cursor_locked && gate.cursor_visible);
}

#[test]
fn escape_forces_release() {
    let mut gate = GateState {
        input_enabled: true,
        cursor_locked: true,
        cursor_visible: false,
    };
    update_gate(
        &mut gate,
        &GateEvents {
            escape_pressed: true,
            ..no_events()
        },
    );
    assert_eq!(gate, released());
}

#[test]
fn click_recaptures_unless_overlay_holds_focus() {
    let mut gate = released();
    let recenter = update_gate(
        &mut gate,
        &GateEvents {
            click_pressed: true,
            overlay_active: true,
            ..no_events()
        },
    );
    assert!(!recenter);
    assert_eq!(gate, released());
    let recenter = update_gate(
        &mut gate,
        &GateEvents {
            click_pressed: true,
            ..no_events()
        },
    );
    assert!(recenter);
    assert!(gate.input_enabled && gate.cursor_locked && !gate.cursor_visible);
}

#[test]
fn default_config_values() {
    let cfg = MovementConfig::default();
    assert_eq!(cfg.base_speed, 5_000);
    assert_eq!(cfg.wallrun_speed, 16_000);
    assert_eq!(cfg.gravity, 9_800);
    assert_eq!(cfg.sensitivity, 5_000);
    assert!(cfg.invert_y);
}

#[test]
fn sine_and_cosine_at_the_landmarks() {
    assert_eq!(sine(0), 0);
    assert_eq!(sine(PI_URAD), 0);
    assert_eq!(sine(523_599), 500); // a sixth of a turn: exactly one half
    assert_eq!(sine(1_570_796), 999);
    assert_eq!(sine(-1_570_796), -999);
    assert_eq!(sine(TAU_URAD + 523_599), 500); // wraps whole turns away
    assert_eq!(cosine(0), 999);
    assert_eq!(cosine(PI_URAD), -999);
    assert_eq!(cosine(1_570_796), 0);
}

#[test]
fn basis_spans_the_look_direction() {
    let level = LookState { yaw: 0, pitch: 0 };
    let (forward, right) = basis_vectors(&level);
    assert_eq!(forward, Vec3 { x: 0, y: 0, z: 998 });
    assert_eq!(right, Vec3 { x: 999, y: 0, z: 0 });
    let quarter = LookState { yaw: 1_570_796, pitch: 0 };
    let (forward, right) = basis_vectors(&quarter);
    assert_eq!(forward, Vec3 { x: 998, y: 0, z: 0 });
    assert_eq!(right, Vec3 { x: 0, y: 0, z: -999 });
}
