//! Per-player movement tunables: immutable after spawn.

use vstd::prelude::*;
use crate::math::{SCALE, MAG_MAX};
use crate::look::SENS_MAX;

verus! {

/// Longest a wall run may be configured to last, in milliseconds.
pub const WALLRUN_MS_MAX: i64 = 3_600_000;

/// The tunables a player is spawned with.  Speeds, the jump impulse and the
/// falling caps are in `SCALE` sub-units per second; gravity in sub-units
/// per second squared; `air_control` is a blend factor out of `SCALE` per
/// second; `sensitivity` is in microradians per mouse count.  The
/// application's key bindings map raw devices onto [`crate::intent::RawInput`]
/// and stay outside this crate.
#[derive(Clone, Copy, PartialEq, Eq, Structural, Debug)]
pub struct MovementConfig {
    pub base_speed: i64,
    pub wallrun_speed: i64,
    pub climb_speed: i64,
    pub fly_speed: i64,
    pub jump_impulse: i64,
    pub gravity: i64,
    pub terminal_speed: i64,
    pub air_control: i64,
    pub sensitivity: i64,
    pub invert_y: bool,
    pub wallrun_max_ms: i64,
    pub wallrun_fall_cutoff: i64,
    pub climb_lateral_max: i64,
}

impl MovementConfig {
    /// Every tunable lies within the magnitudes the fixed-point arithmetic
    /// is proved against.
    pub open spec fn wf(self) -> bool {
        &&& 0 <= self.base_speed <= MAG_MAX
        &&& 0 <= self.wallrun_speed <= MAG_MAX
        &&& 0 <= self.climb_speed <= MAG_MAX
        &&& 0 <= self.fly_speed <= MAG_MAX
        &&& 0 <= self.jump_impulse <= MAG_MAX
        &&& 0 <= self.gravity <= MAG_MAX
        &&& 0 <= self.terminal_speed <= MAG_MAX
        &&& 0 <= self.air_control <= SCALE
        &&& 0 <= self.sensitivity <= SENS_MAX
        &&& 0 <= self.wallrun_max_ms <= WALLRUN_MS_MAX
        &&& 0 <= self.wallrun_fall_cutoff <= MAG_MAX
        &&& 0 <= self.climb_lateral_max <= MAG_MAX
    }
}

/// The spawn-time defaults: walk five units per second, run walls at
/// sixteen, fall under standard gravity, look with inverted vertical mouse
/// at five milliradians per count.
pub open spec fn default_config_spec() -> MovementConfig {
    MovementConfig {
        base_speed: 5_000,
        wallrun_speed: 16_000,
        climb_speed: 5_000,
        fly_speed: 10_000,
        jump_impulse: 5_000,
        gravity: 9_800,
        terminal_speed: 50_000,
        air_control: 300,
        sensitivity: 5_000,
        invert_y: true,
        wallrun_max_ms: 2_000,
        wallrun_fall_cutoff: 10_000,
        climb_lateral_max: 2_000,
    }
}

impl Default for MovementConfig {
    /// The spawn-time defaults.
    fn default() -> (c: Self)
        ensures
            c == default_config_spec(),
            c.wf(),
    {
        MovementConfig {
            base_speed: 5_000,
            wallrun_speed: 16_000,
            climb_speed: 5_000,
            fly_speed: 10_000,
            jump_impulse: 5_000,
            gravity: 9_800,
            terminal_speed: 50_000,
            air_control: 300,
            sensitivity: 5_000,
            invert_y: true,
            wallrun_max_ms: 2_000,
            wallrun_fall_cutoff: 10_000,
            climb_lateral_max: 2_000,
        }
    }
}

} // verus!
