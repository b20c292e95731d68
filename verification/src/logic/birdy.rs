//! The player-controlled flyer and its tuning constants.

use vstd::prelude::*;

verus! {

/// Vertical velocity set by a successful jump, units per second.
pub const ACCEL_JUMP: i64 = 600;

/// Horizontal velocity set while a direction key is held.
pub const ACCEL_MOVE: i64 = 400;

/// Minimum time that must elapse between two jump impulses.
pub const JUMP_COOLDOWN_MS: u64 = 250;

/// Gravitational acceleration, units per second per second (negative: down).
pub const ACCEL_GRAV: i64 = -900;

/// Horizontal deceleration applied while no direction key is held (the
/// magnitude by which horizontal speed decays toward zero each second).
pub const DECCEL_MOVE: i64 = -600;

/// The most negative vertical velocity that gravity can produce.
pub const TERMINAL_VELOCITY: i64 = -600;

/// The flyer's half-extent on both axes.
pub const BIRDY_SIZE: i64 = 50;

/// A freshly constructed flyer: centered in the playfield, at rest.
pub fn new_birdy() -> (b: super::PhysObj)
    ensures
        b == (super::PhysObj {
            x: 0,
            y: 0,
            x_velocity: 0,
            y_velocity: 0,
            width: BIRDY_SIZE,
            height: BIRDY_SIZE,
        }),
{
    super::PhysObj {
        x: 0,
        y: 0,
        x_velocity: 0,
        y_velocity: 0,
        width: BIRDY_SIZE,
        height: BIRDY_SIZE,
    }
}

} // verus!
