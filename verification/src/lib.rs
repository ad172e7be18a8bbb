//! Physics-driven active ragdoll character control.
//!
//! An articulated skeleton is simultaneously constrained by passive joint
//! limits and actively driven by per-bone proportional-derivative muscle
//! controllers toward a procedurally generated target pose, under a mode
//! state machine that blends between full control, pure ragdoll, and a
//! timed recovery ramp.
//!
//! All quantities are fixed-point integers with six decimal places
//! (micro-units): `1_000_000` stands for `1.0`. Angles are micro-radians,
//! lengths micro-metres. The caller owns the physics engine: it creates
//! bodies and joints from the skeleton's plans, reads body states back
//! into a per-tick snapshot, and applies the command batch each tick
//! produces.

pub mod diagnostics;
pub mod fx;
pub mod linalg;
pub mod muscle;
pub mod ragdoll;
pub mod skeleton;

pub use fx::FX_HALF_PI;
pub use fx::FX_ONE;
pub use fx::FX_PI;
pub use fx::FX_TAU;
