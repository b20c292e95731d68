//! Rocks: fatal falling obstacles.

use vstd::prelude::*;

verus! {

/// Minimum time between two rock spawns.
pub const COOLDOWN_MS: u64 = 1000;

/// Slowest vertical speed of a fresh rock, units per second.
pub const MIN_VELOCITY: i64 = 250;

/// Fastest vertical speed of a fresh rock.
pub const MAX_VELOCITY: i64 = 500;

/// Vertical distance from the playfield center at which rocks appear.
pub const SPAWN_DIST: i64 = 1500;

/// Smallest half-extent of a fresh rock.
pub const MIN_SIZE: i64 = 50;

/// Largest half-extent of a fresh rock.
pub const MAX_SIZE: i64 = 150;

/// What `new_rock` promises of a rock with fall direction `dir`.
pub open spec fn spawned_rock(o: super::PhysObj, dir: int) -> bool {
    super::spawned_obj(
        o,
        dir,
        SPAWN_DIST as int,
        MIN_SIZE as int,
        MAX_SIZE as int,
        MIN_VELOCITY as int,
        MAX_VELOCITY as int,
    )
}

/// A fresh rock for the given fall direction, with random size, horizontal
/// position and speed; its box always fits inside the playfield horizontally.
pub fn new_rock(fall_direction: i64) -> (r: super::PhysObj)
    requires
        fall_direction == 1 || fall_direction == -1,
    ensures
        spawned_rock(r, fall_direction as int),
{
    super::new_falling_obj(fall_direction, SPAWN_DIST, MIN_SIZE, MAX_SIZE, MIN_VELOCITY, MAX_VELOCITY)
}

} // verus!
