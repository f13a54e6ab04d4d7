//! Classifier, state-machine and whole-frame behaviour on concrete scenarios.

use movement_core::config::MovementConfig;
use movement_core::contact::{classify, Contact, SurfaceRelation, SurfaceTag};
use movement_core::controller::{frame, PlayerController};
use movement_core::gate::GateEvents;
use movement_core::intent::{sample_intent, Basis, Intent, RawInput};
use movement_core::machine::{step, MachineState, MovementMode};
use movement_core::vec3::Vec3;

fn zero() -> Vec3 {
    Vec3 { x: 0, y: 0, z: 0 }
}

fn axis_basis() -> Basis {
    Basis {
        forward: Vec3 { x: 0, y: 0, z: 1000 },
        right: Vec3 { x: 1000, y: 0, z: 0 },
    }
}

fn idle_raw() -> RawInput {
    RawInput {
        axis_x: 0,
        axis_z: 0,
        jump: false,
        up: false,
        down: false,
        fly_toggle: false,
        look_dx: 0,
        look_dy: 0,
    }
}

fn no_events() -> GateEvents {
    GateEvents {
        toggle_pressed: false,
        escape_pressed: false,
        click_pressed: false,
        overlay_active: false,
    }
}

fn neutral_intent() -> Intent {
    Intent {
        dir_h: zero(),
        dir_free: zero(),
        jump: false,
        up: false,
        down: false,
        fly_toggle: false,
    }
}

fn ground_contact() -> Contact {
    Contact {
        entity: 1,
        tag: SurfaceTag::Plain,
        normal: Vec3 { x: 0, y: 1000, z: 0 },
    }
}

fn climbable_contact(entity: u64, normal: Vec3) -> Contact {
    Contact {
        entity,
        tag: SurfaceTag::Climbable,
        normal,
    }
}

fn grounded_state() -> MachineState {
    MachineState {
        mode: MovementMode::Grounded,
        wallrun_ms: 0,
    }
}

#[test]
fn classifier_tolerates_no_contacts() {
    let contacts: Vec<Contact> = vec![];
    let rel = classify(&contacts, &zero(), &zero());
    assert_eq!(rel, SurfaceRelation::Free);
}

#[test]
fn ground_beats_wall() {
    // Standing on a floor against a climbable wall must read as ground.
    let wall_n = Vec3 { x: 1000, y: 0, z: 0 };
    let contacts = vec![climbable_contact(2, wall_n), ground_contact()];
    let vel = Vec3 { x: -500, y: 0, z: 0 };
    let rel = classify(&contacts, &vel, &zero());
    assert_eq!(rel, SurfaceRelation::Ground);
}

#[test]
fn wall_needs_pressing_intent_or_velocity() {
    let wall_n = Vec3 { x: 1000, y: 0, z: 0 };
    let contacts = vec![climbable_contact(2, wall_n)];
    // Moving away from the wall: no wall relation.
    let away = Vec3 { x: 500, y: 0, z: 0 };
    assert_eq!(classify(&contacts, &away, &zero()), SurfaceRelation::Free);
    // Pressing into the wall with intent alone is enough.
    let press = Vec3 { x: -1000, y: 0, z: 0 };
    assert_eq!(
        classify(&contacts, &zero(), &press),
        SurfaceRelation::Wall { normal: wall_n }
    );
}

#[test]
fn corner_picks_the_most_opposed_wall() {
    let n1 = Vec3 { x: 1000, y: 0, z: 0 };
    let n2 = Vec3 { x: 0, y: 0, z: 1000 };
    let contacts = vec![climbable_contact(1, n1), climbable_contact(2, n2)];
    // Velocity mostly into the second wall.
    let vel = Vec3 { x: -100, y: 0, z: -900 };
    assert_eq!(
        classify(&contacts, &vel, &zero()),
        SurfaceRelation::Wall { normal: n2 }
    );
    // On a perfect tie the first enumerated contact wins.
    let tied = Vec3 { x: -500, y: 0, z: -500 };
    assert_eq!(
        classify(&contacts, &tied, &zero()),
        SurfaceRelation::Wall { normal: n1 }
    );
}

#[test]
fn grounded_speed_is_base_speed_along_forward() {
    // Grounded, forward unit intent, base speed five: the commanded
    // horizontal velocity is exactly five units per second along forward.
    let cfg = MovementConfig::default();
    let raw = RawInput {
        axis_z: 1000,
        ..idle_raw()
    };
    let intent = sample_intent(&raw, &axis_basis());
    assert_eq!(intent.dir_h, Vec3 { x: 0, y: 0, z: 1000 });
    let (st, vel) = step(
        &grounded_state(),
        &zero(),
        &cfg,
        &intent,
        &SurfaceRelation::Ground,
        16,
    );
    assert_eq!(st.mode, MovementMode::Grounded);
    assert_eq!(vel, Vec3 { x: 0, y: 0, z: 5000 });
}

#[test]
fn jump_leaves_the_ground_with_the_configured_impulse() {
    let cfg = MovementConfig::default();
    let intent = Intent {
        jump: true,
        ..neutral_intent()
    };
    let (st, vel) = step(
        &grounded_state(),
        &zero(),
        &cfg,
        &intent,
        &SurfaceRelation::Ground,
        16,
    );
    assert_eq!(st.mode, MovementMode::Airborne);
    assert_eq!(vel.y, cfg.jump_impulse);
}

#[test]
fn one_second_of_falling_reaches_gravity() {
    // Ten airborne frames of a tenth of a second each: the vertical
    // velocity integrates to minus gravity exactly.
    let cfg = MovementConfig::default();
    let mut st = MachineState {
        mode: MovementMode::Airborne,
        wallrun_ms: 0,
    };
    let mut vel = zero();
    for _ in 0..10 {
        let (st2, vel2) = step(&st, &vel, &cfg, &neutral_intent(), &SurfaceRelation::Free, 100);
        st = st2;
        vel = vel2;
        assert_eq!(st.mode, MovementMode::Airborne);
    }
    assert_eq!(vel, Vec3 { x: 0, y: -9800, z: 0 });
}

#[test]
fn falling_speed_is_capped_at_terminal() {
    let cfg = MovementConfig::default();
    let st = MachineState {
        mode: MovementMode::Airborne,
        wallrun_ms: 0,
    };
    let (_, vel) = step(&st, &zero(), &cfg, &neutral_intent(), &SurfaceRelation::Free, 10_000);
    assert_eq!(vel.y, -cfg.terminal_speed);
}

#[test]
fn air_control_blends_fully_after_one_second() {
    let mut cfg = MovementConfig::default();
    cfg.air_control = 1000; // full authority over one second
    let st = MachineState {
        mode: MovementMode::Airborne,
        wallrun_ms: 0,
    };
    let intent = Intent {
        dir_h: Vec3 { x: 0, y: 0, z: 1000 },
        ..neutral_intent()
    };
    let (_, vel) = step(&st, &zero(), &cfg, &intent, &SurfaceRelation::Free, 1000);
    assert_eq!(vel.x, 0);
    assert_eq!(vel.z, cfg.base_speed);
}

#[test]
fn climbing_starts_on_upward_intent_into_a_wall() {
    // Pressing into a climbable wall with the up key: climbing, horizontal
    // velocity damped to rest within the frame, vertical at climb speed.
    let cfg = MovementConfig::default();
    let wall_n = Vec3 { x: 1000, y: 0, z: 0 };
    let intent = Intent {
        dir_h: Vec3 { x: -1000, y: 0, z: 0 },
        up: true,
        ..neutral_intent()
    };
    let vel = Vec3 { x: -400, y: -200, z: 100 };
    let (st, new_vel) = step(
        &grounded_state(),
        &vel,
        &cfg,
        &intent,
        &SurfaceRelation::Wall { normal: wall_n },
        16,
    );
    assert_eq!(st.mode, MovementMode::Climbing);
    assert_eq!(new_vel, Vec3 { x: 0, y: cfg.climb_speed, z: 0 });
}

#[test]
fn wall_running_follows_the_tangent_and_suspends_the_fall() {
    let cfg = MovementConfig::default();
    let wall_n = Vec3 { x: 1000, y: 0, z: 0 };
    let intent = Intent {
        dir_h: Vec3 { x: 0, y: 0, z: 1000 },
        ..neutral_intent()
    };
    let vel = Vec3 { x: -100, y: -3000, z: 4000 };
    let st = MachineState {
        mode: MovementMode::Airborne,
        wallrun_ms: 0,
    };
    let (st2, vel2) = step(
        &st,
        &vel,
        &cfg,
        &intent,
        &SurfaceRelation::Wall { normal: wall_n },
        16,
    );
    assert_eq!(st2.mode, MovementMode::WallRunning);
    assert_eq!(st2.wallrun_ms, 16);
    assert_eq!(vel2, Vec3 { x: 0, y: 0, z: cfg.wallrun_speed });
}

#[test]
fn wall_run_times_out() {
    let cfg = MovementConfig::default();
    let wall_n = Vec3 { x: 1000, y: 0, z: 0 };
    let intent = Intent {
        dir_h: Vec3 { x: 0, y: 0, z: 1000 },
        ..neutral_intent()
    };
    let st = MachineState {
        mode: MovementMode::WallRunning,
        wallrun_ms: cfg.wallrun_max_ms,
    };
    let (st2, _) = step(
        &st,
        &Vec3 { x: 0, y: 0, z: 16_000 },
        &cfg,
        &intent,
        &SurfaceRelation::Wall { normal: wall_n },
        16,
    );
    assert_eq!(st2.mode, MovementMode::Airborne);
}

#[test]
fn fly_toggle_round_trip_restores_gravity() {
    // First edge-triggered press: flying, and velocity follows intent alone.
    let cfg = MovementConfig::default();
    let toggle = Intent {
        fly_toggle: true,
        ..neutral_intent()
    };
    let (st1, vel1) = step(
        &grounded_state(),
        &zero(),
        &cfg,
        &toggle,
        &SurfaceRelation::Ground,
        100,
    );
    assert_eq!(st1.mode, MovementMode::Flying);
    assert_eq!(vel1, zero());
    // Second press in the air: back to the mode the contacts indicate, and
    // gravity acts again this very frame.
    let (st2, vel2) = step(&st1, &vel1, &cfg, &toggle, &SurfaceRelation::Free, 100);
    assert_eq!(st2.mode, MovementMode::Airborne);
    assert_eq!(vel2.y, -980);
}

#[test]
fn flying_moves_freely_without_gravity() {
    let cfg = MovementConfig::default();
    let st = MachineState {
        mode: MovementMode::Flying,
        wallrun_ms: 0,
    };
    let intent = Intent {
        dir_free: Vec3 { x: 0, y: 1000, z: 0 },
        up: true,
        ..neutral_intent()
    };
    let (st2, vel) = step(&st, &zero(), &cfg, &intent, &SurfaceRelation::Free, 1000);
    assert_eq!(st2.mode, MovementMode::Flying);
    assert_eq!(vel, Vec3 { x: 0, y: cfg.fly_speed, z: 0 });
}

#[test]
fn idle_grounded_frame_changes_nothing() {
    let mut player = PlayerController::spawn(MovementConfig::default(), 1_919_862, 0);
    // Capture input first, then settle on the ground.
    frame(
        &mut player,
        &idle_raw(),
        &GateEvents {
            toggle_pressed: true,
            ..no_events()
        },
        &vec![ground_contact()],
        16,
    );
    let look_before = player.look;
    frame(
        &mut player,
        &idle_raw(),
        &no_events(),
        &vec![ground_contact()],
        16,
    );
    assert_eq!(player.look, look_before);
    assert_eq!(player.velocity, zero());
    assert_eq!(player.state.mode, MovementMode::Grounded);
}

#[test]
fn disabled_gate_blocks_held_keys() {
    let mut player = PlayerController::spawn(MovementConfig::default(), 0, 0);
    let running = RawInput {
        axis_z: 1000,
        look_dx: 100,
        ..idle_raw()
    };
    // Capture, and run forward: input flows.
    frame(
        &mut player,
        &running,
        &GateEvents {
            toggle_pressed: true,
            ..no_events()
        },
        &vec![ground_contact()],
        16,
    );
    assert!(player.velocity.x > 0 && player.velocity.z > 0);
    assert_ne!(player.look.yaw, 0);
    let look_frozen = player.look;
    // Escape disables input mid-session: the same held keys reach nothing.
    frame(
        &mut player,
        &running,
        &GateEvents {
            escape_pressed: true,
            ..no_events()
        },
        &vec![ground_contact()],
        16,
    );
    assert_eq!(player.velocity, zero());
    assert_eq!(player.look, look_frozen);
    // Still blocked on the next frame while input stays disabled.
    frame(
        &mut player,
        &running,
        &no_events(),
        &vec![ground_contact()],
        16,
    );
    assert_eq!(player.velocity, zero());
    assert_eq!(player.look, look_frozen);
    // A click re-captures and input flows again.
    frame(
        &mut player,
        &running,
        &GateEvents {
            click_pressed: true,
            ..no_events()
        },
        &vec![ground_contact()],
        16,
    );
    assert!(player.velocity.x > 0 && player.velocity.z > 0);
}

#[test]
fn gate_toggling_leaves_config_untouched() {
    let cfg = MovementConfig::default();
    let mut player = PlayerController::spawn(cfg, 0, 0);
    for _ in 0..3 {
        frame(
            &mut player,
            &idle_raw(),
            &GateEvents {
                toggle_pressed: true,
                ..no_events()
            },
            &vec![ground_contact()],
            16,
        );
        assert_eq!(player.config, cfg);
    }
}

#[test]
fn velocity_stays_capped_across_a_wild_session() {
    // Whatever inputs arrive, no commanded component may outgrow the
    // largest configured speed (here the terminal falling speed).
    let cfg = MovementConfig::default();
    let mut player = PlayerController::spawn(cfg, 0, 0);
    let cap = 50_000;
    let wall_n = Vec3 { x: 1000, y: 0, z: 0 };
    let scenes = [
        vec![ground_contact()],
        vec![],
        vec![climbable_contact(7, wall_n)],
        vec![ground_contact(), climbable_contact(7, wall_n)],
    ];
    for i in 0..200u64 {
        let raw = RawInput {
            axis_x: (i as i64 * 37 % 2001) - 1000,
            axis_z: 1000 - (i as i64 * 53 % 2001),
            jump: i % 7 == 0,
            up: i % 5 == 0,
            down: i % 11 == 0,
            fly_toggle: i % 13 == 0,
            look_dx: (i as i64 * 97) % 1000,
            look_dy: -((i as i64 * 31) % 1000),
        };
        let events = GateEvents {
            toggle_pressed: i % 17 == 0,
            escape_pressed: i % 23 == 0,
            click_pressed: i % 3 == 0,
            overlay_active: i % 29 == 0,
        };
        let contacts = &scenes[(i % 4) as usize];
        frame(&mut player, &raw, &events, contacts, 16 + (i as i64 % 100));
        assert!(player.velocity.x.abs() <= cap);
        assert!(player.velocity.y.abs() <= cap);
        assert!(player.velocity.z.abs() <= cap);
    }
}
