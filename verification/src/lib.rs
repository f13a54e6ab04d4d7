//! Movement core of a first-person character controller.
//!
//! The crate converts per-frame input (movement axes, look deltas, action
//! keys) into a new look direction and a new linear velocity for a
//! physics-backed player body, across five movement modes: grounded and air
//! locomotion, wall-running and climbing on tagged surfaces, and a free-fly
//! mode.  The surrounding application owns the window, the input devices and
//! the physics integrator; this crate owns the per-frame decisions.
//!
//! All quantities are fixed-point integers: distances and speeds carry
//! [`math::SCALE`] sub-units per unit, angles are expressed in microradians.

pub mod math;
pub mod vec3;
pub mod look;
pub mod gate;
pub mod intent;
pub mod contact;
pub mod config;
pub mod machine;
pub mod controller;
