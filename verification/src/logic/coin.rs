//! Coins: bonus items that score a point when collected.

use vstd::prelude::*;

verus! {

/// Minimum time between two coin spawns.
pub const COOLDOWN_MS: u64 = 3000;

/// Slowest vertical speed of a fresh coin, units per second.
pub const MIN_VELOCITY: i64 = 750;

/// Fastest vertical speed of a fresh coin.
pub const MAX_VELOCITY: i64 = 1000;

/// Vertical distance from the playfield center at which coins appear.
pub const SPAWN_DIST: i64 = 1500;

/// Smallest half-extent of a fresh coin.
pub const MIN_SIZE: i64 = 50;

/// Largest half-extent of a fresh coin.
pub const MAX_SIZE: i64 = 100;

/// What `new_coin` promises: a fresh coin falls from either side of the
/// playfield, chosen at random, with its box inside the horizontal bounds.
pub open spec fn spawned_coin(o: super::PhysObj) -> bool {
    ||| coin_for_direction(o, 1)
    ||| coin_for_direction(o, -1)
}

/// A fresh coin with fall direction `dir`.
pub open spec fn coin_for_direction(o: super::PhysObj, dir: int) -> bool {
    super::spawned_obj(
        o,
        dir,
        SPAWN_DIST as int,
        MIN_SIZE as int,
        MAX_SIZE as int,
        MIN_VELOCITY as int,
        MAX_VELOCITY as int,
    )
}

/// A fresh coin with random fall direction, size, horizontal position and
/// speed; its box always fits inside the playfield horizontally.
pub fn new_coin() -> (c: super::PhysObj)
    ensures
        spawned_coin(c),
{
    let fall_direction: i64 = if crate::rng::rand_bool() {
        1
    } else {
        -1
    };
    super::new_falling_obj(fall_direction, SPAWN_DIST, MIN_SIZE, MAX_SIZE, MIN_VELOCITY, MAX_VELOCITY)
}

} // verus!
