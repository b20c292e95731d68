//! Physical entities and the per-frame simulation step.

use crate::GameState;
use vstd::prelude::*;

pub mod birdy;
pub mod coin;
pub mod rock;

verus! {

/// Number of fixed-point units in one playfield half-extent; the playfield
/// spans `-PLAYFIELD_EXTENT ..= PLAYFIELD_EXTENT` on both axes.
pub const PLAYFIELD_EXTENT: i64 = 1000;

/// Entities farther than this from the playfield center (vertically) are
/// removed; it exceeds the spawn distance so nothing despawns on arrival.
pub const DESPAWN_DISTANCE: i64 = 2500;

/// Milliseconds per second: velocities are units per second, elapsed time is
/// in milliseconds, so a position delta is `velocity * elapsed / 1000`.
pub const MILLIS_PER_SECOND: u64 = 1000;

/// Upper bound on a single frame's elapsed time accepted by the integrator;
/// keeps all fixed-point products comfortably inside `i64`.
pub const MAX_TIME_DELTA_MS: u64 = 1_000_000_000_000;

/// Upper bound on the magnitude of any velocity accepted by the integrator.
pub const MAX_SPEED: i64 = 1_000_000;

/// Upper bound on the vertical speed of any spawned rock or coin.
pub const MAX_FALL_SPEED: i64 = 1000;

/// The three semantic input actions the core recognizes; the driver maps
/// whatever concrete input device it has onto these and ignores the rest.
#[derive(Copy, Clone, Debug, PartialEq, Eq, Structural)]
pub enum InputKey {
    Jump,
    MoveLeft,
    MoveRight,
}

/// Any moving, sized entity: the flyer, a rock or a coin. Positions and
/// half-extent sizes are in playfield units, velocities in units per second.
#[derive(Copy, Clone, Debug, PartialEq, Eq, Structural)]
pub struct PhysObj {
    pub x: i64,
    pub y: i64,
    pub x_velocity: i64,
    pub y_velocity: i64,
    pub width: i64,
    pub height: i64,
}

/// Distance travelled in `t` milliseconds at `v` units per second, rounded
/// toward zero.
pub open spec fn scaled(v: int, t: int) -> int {
    if v >= 0 {
        (v * t) / (MILLIS_PER_SECOND as int)
    } else {
        -(((-v) * t) / (MILLIS_PER_SECOND as int))
    }
}

/// Computes `scaled(v, t)` on machine integers.
fn scaled_velocity(v: i64, t: u64) -> (r: i64)
    requires
        t <= MAX_TIME_DELTA_MS,
        -MAX_SPEED <= v <= MAX_SPEED,
    ensures
        r == scaled(v as int, t as int),
        -1_000_000_000_000_000 <= r <= 1_000_000_000_000_000,
{
    if v >= 0 {
        assert(v * t <= 1_000_000_000_000_000_000) by (nonlinear_arith)
            requires
                0 <= v <= 1_000_000,
                0 <= t <= 1_000_000_000_000,
        ;
        let m: u64 = (v as u64) * t;
        (m / MILLIS_PER_SECOND) as i64
    } else {
        assert((-v) * t <= 1_000_000_000_000_000_000) by (nonlinear_arith)
            requires
                0 <= -v <= 1_000_000,
                0 <= t <= 1_000_000_000_000,
        ;
        let m: u64 = ((-v) as u64) * t;
        -((m / MILLIS_PER_SECOND) as i64)
    }
}

impl PhysObj {
    /// Advances the position by `velocity * time_delta_ms / 1000`; velocities
    /// and sizes are untouched.
    pub fn position_delta(&mut self, time_delta_ms: u64)
        requires
            time_delta_ms <= MAX_TIME_DELTA_MS,
            -MAX_SPEED <= old(self).x_velocity <= MAX_SPEED,
            -MAX_SPEED <= old(self).y_velocity <= MAX_SPEED,
            i64::MIN <= old(self).x + scaled(old(self).x_velocity as int, time_delta_ms as int)
                <= i64::MAX,
            i64::MIN <= old(self).y + scaled(old(self).y_velocity as int, time_delta_ms as int)
                <= i64::MAX,
        ensures
            final(self).x == old(self).x + scaled(old(self).x_velocity as int, time_delta_ms as int),
            final(self).y == old(self).y + scaled(old(self).y_velocity as int, time_delta_ms as int),
            final(self).x_velocity == old(self).x_velocity,
            final(self).y_velocity == old(self).y_velocity,
            final(self).width == old(self).width,
            final(self).height == old(self).height,
    {
        let dx = scaled_velocity(self.x_velocity, time_delta_ms);
        let dy = scaled_velocity(self.y_velocity, time_delta_ms);
        self.x = self.x + dx;
        self.y = self.y + dy;
    }
}

/// Axis-aligned bounding boxes of `a` and `b` overlap: every comparison is
/// strict, so boxes that merely touch along an edge do not overlap.
pub open spec fn overlap(a: PhysObj, b: PhysObj) -> bool {
    &&& a.x - a.width < b.x + b.width
    &&& a.x + a.width > b.x - b.width
    &&& a.y - a.height < b.y + b.height
    &&& a.y + a.height > b.y - b.height
}

/// Bounding-box overlap test between two entities.
pub fn objs_overlap(a: PhysObj, b: PhysObj) -> (r: bool)
    ensures
        r == overlap(a, b),
{
    (a.x as i128) - (a.width as i128) < (b.x as i128) + (b.width as i128)
        && (a.x as i128) + (a.width as i128) > (b.x as i128) - (b.width as i128)
        && (a.y as i128) - (a.height as i128) < (b.y as i128) + (b.height as i128)
        && (a.y as i128) + (a.height as i128) > (b.y as i128) - (b.height as i128)
}

/// Whether an entity is close enough to the playfield center to stay alive.
pub open spec fn within_despawn_distance(o: PhysObj) -> bool {
    -DESPAWN_DISTANCE <= o.y <= DESPAWN_DISTANCE
}

/// The subsequence of `s` whose entities are within the despawn distance,
/// in their original order.
pub open spec fn surviving(s: Seq<PhysObj>) -> Seq<PhysObj>
    decreases s.len(),
{
    if s.len() == 0 {
        Seq::empty()
    } else if within_despawn_distance(s.last()) {
        surviving(s.drop_last()).push(s.last())
    } else {
        surviving(s.drop_last())
    }
}

/// Removes every entity whose vertical distance from the playfield center
/// exceeds `DESPAWN_DISTANCE`, keeping the rest in order.
pub fn despawn_objs(phys_objs: &mut Vec<PhysObj>)
    ensures
        final(phys_objs)@ == surviving(old(phys_objs)@),
{
    let ghost orig: Seq<PhysObj> = phys_objs@;
    let ghost mut j: int = 0;
    let mut i: usize = 0;
    while i < phys_objs.len()
        invariant
            0 <= j <= orig.len(),
            i == surviving(orig.take(j)).len(),
            phys_objs@ == surviving(orig.take(j)) + orig.skip(j),
        decreases orig.len() - j,
    {
        proof {
            assert(orig.take(j + 1).drop_last() =~= orig.take(j));
            assert(orig.take(j + 1).last() == orig[j]);
            assert(phys_objs@[i as int] == orig[j]) by {
                assert(surviving(orig.take(j)).len() <= orig.take(j).len()) by {
                    lemma_surviving_len(orig.take(j));
                }
            }
        }
        let keep = {
            let o = phys_objs[i];
            -DESPAWN_DISTANCE <= o.y && o.y <= DESPAWN_DISTANCE
        };
        if !keep {
            phys_objs.remove(i);
            proof {
                assert(phys_objs@ =~= surviving(orig.take(j + 1)) + orig.skip(j + 1));
            }
        } else {
            i = i + 1;
            proof {
                assert(phys_objs@ =~= surviving(orig.take(j + 1)) + orig.skip(j + 1));
            }
        }
        proof {
            j = j + 1;
        }
    }
    proof {
        assert(orig.take(j) =~= orig);
        assert(orig.skip(j) =~= Seq::empty());
        assert(phys_objs@ =~= surviving(orig));
    }
}

/// A cooldown-gated event is ready to fire: either it has never fired, or
/// strictly more than `cooldown_ms` has elapsed since it last fired.
pub open spec fn cooldown_elapsed(last_time: Option<u64>, now: u64, cooldown_ms: u64) -> bool {
    match last_time {
        None => true,
        Some(ts) => now - ts > cooldown_ms,
    }
}

/// Appends `next_obj` to `obj_list` and records `now`, but only when the
/// cooldown has elapsed (a never-fired timer is immediately eligible);
/// returns whether the spawn happened.
pub fn spawn_obj(
    last_spawn_time: &mut Option<u64>,
    now: u64,
    cooldown_ms: u64,
    next_obj: PhysObj,
    obj_list: &mut Vec<PhysObj>,
) -> (spawned: bool)
    requires
        match *old(last_spawn_time) {
            Some(ts) => ts <= now,
            None => true,
        },
    ensures
        spawned == cooldown_elapsed(*old(last_spawn_time), now, cooldown_ms),
        spawned ==> *final(last_spawn_time) == Some(now)
            && final(obj_list)@ == old(obj_list)@.push(next_obj),
        !spawned ==> *final(last_spawn_time) == *old(last_spawn_time)
            && final(obj_list)@ == old(obj_list)@,
{
    let ready = match *last_spawn_time {
        None => true,
        Some(time) => now - time > cooldown_ms,
    };
    if ready {
        *last_spawn_time = Some(now);
        obj_list.push(next_obj);
        return true;
    }
    false
}

/// What every entity fresh from a spawner satisfies, for fall direction
/// `dir` (`1`: spawned above the playfield and falling down, `-1`: below and
/// rising): its size is in range, its box fits horizontally inside the
/// playfield, it sits at the spawn distance on the side given by `dir`, and
/// it travels vertically toward the playfield center.
pub open spec fn spawned_obj(
    o: PhysObj,
    dir: int,
    spawn_dist: int,
    min_size: int,
    max_size: int,
    min_vel: int,
    max_vel: int,
) -> bool {
    &&& min_size <= o.width <= max_size
    &&& o.height == o.width
    &&& o.x + o.width <= PLAYFIELD_EXTENT
    &&& o.x - o.width >= -PLAYFIELD_EXTENT
    &&& o.y == spawn_dist * dir
    &&& o.x_velocity == 0
    &&& dir == 1 ==> -max_vel <= o.y_velocity <= -min_vel
    &&& dir == -1 ==> min_vel <= o.y_velocity <= max_vel
}

/// Creates an entity with a random size in `min_size ..= max_size`, a random
/// horizontal position whose box stays inside the playfield, and a random
/// vertical velocity magnitude in `min_vel ..= max_vel` directed toward the
/// playfield center.
pub(crate) fn new_falling_obj(
    fall_direction: i64,
    spawn_dist: i64,
    min_size: i64,
    max_size: i64,
    min_vel: i64,
    max_vel: i64,
) -> (o: PhysObj)
    requires
        fall_direction == 1 || fall_direction == -1,
        0 < min_size <= max_size <= PLAYFIELD_EXTENT,
        0 < min_vel <= max_vel <= MAX_SPEED,
        0 <= spawn_dist,
    ensures
        spawned_obj(
            o,
            fall_direction as int,
            spawn_dist as int,
            min_size as int,
            max_size as int,
            min_vel as int,
            max_vel as int,
        ),
{
    let size = crate::rng::rand_range(min_size, max_size);
    let mut x = crate::rng::rand_range(0, PLAYFIELD_EXTENT - size);
    if crate::rng::rand_bool() {
        x = -x;
    }
    let vel_mag = crate::rng::rand_range(min_vel, max_vel);
    let y_velocity = if fall_direction == 1 {
        -vel_mag
    } else {
        vel_mag
    };
    let y = if fall_direction == 1 {
        spawn_dist
    } else {
        -spawn_dist
    };
    PhysObj { x, y, x_velocity: 0, y_velocity, width: size, height: size }
}

/// The flyer's horizontal velocity after the held-key set is applied: the
/// last held direction key wins, and other keys leave it unchanged.
pub open spec fn vx_after_keys(keys: Seq<InputKey>, vx0: int) -> int
    decreases keys.len(),
{
    if keys.len() == 0 {
        vx0
    } else if keys.last() == InputKey::MoveLeft {
        -(birdy::ACCEL_MOVE as int)
    } else if keys.last() == InputKey::MoveRight {
        birdy::ACCEL_MOVE as int
    } else {
        vx_after_keys(keys.drop_last(), vx0)
    }
}

/// A jump impulse fires this frame: the jump key is held and the jump
/// cooldown has elapsed (a flyer that has never jumped may always jump).
pub open spec fn jump_triggered(keys: Seq<InputKey>, last_jump_time: Option<u64>, now: u64) -> bool {
    keys.contains(InputKey::Jump) && cooldown_elapsed(last_jump_time, now, birdy::JUMP_COOLDOWN_MS)
}

/// Applies the held keys to the flyer's velocity: a direction key sets the
/// horizontal velocity (the last one held wins), and the jump key overwrites
/// the vertical velocity with the jump impulse if and only if the jump
/// cooldown has elapsed, recording `now` as the new last jump time.
pub fn apply_input(
    flyer: &mut PhysObj,
    last_jump_time: &mut Option<u64>,
    keys: &Vec<InputKey>,
    now: u64,
)
    requires
        match *old(last_jump_time) {
            Some(ts) => ts <= now,
            None => true,
        },
    ensures
        final(flyer).x_velocity == vx_after_keys(keys@, old(flyer).x_velocity as int),
        jump_triggered(keys@, *old(last_jump_time), now) ==> final(flyer).y_velocity
            == birdy::ACCEL_JUMP && *final(last_jump_time) == Some(now),
        !jump_triggered(keys@, *old(last_jump_time), now) ==> final(flyer).y_velocity
            == old(flyer).y_velocity && *final(last_jump_time) == *old(last_jump_time),
        final(flyer).x == old(flyer).x,
        final(flyer).y == old(flyer).y,
        final(flyer).width == old(flyer).width,
        final(flyer).height == old(flyer).height,
{
    let mut i: usize = 0;
    while i < keys.len()
        invariant
            0 <= i <= keys@.len(),
            match *old(last_jump_time) {
                Some(ts) => ts <= now,
                None => true,
            },
            flyer.x_velocity == vx_after_keys(
                keys@.take(i as int),
                old(flyer).x_velocity as int,
            ),
            jump_triggered(keys@.take(i as int), *old(last_jump_time), now) ==> flyer.y_velocity
                == birdy::ACCEL_JUMP && *last_jump_time == Some(now),
            !jump_triggered(keys@.take(i as int), *old(last_jump_time), now) ==> flyer.y_velocity
                == old(flyer).y_velocity && *last_jump_time == *old(last_jump_time),
            flyer.x == old(flyer).x,
            flyer.y == old(flyer).y,
            flyer.width == old(flyer).width,
            flyer.height == old(flyer).height,
        decreases keys@.len() - i,
    {
        proof {
            assert(keys@.take(i as int + 1).drop_last() =~= keys@.take(i as int));
            assert(keys@.take(i as int + 1).last() == keys@[i as int]);
            assert(forall|j: int|
                0 <= j < i ==> #[trigger] keys@.take(i as int + 1)[j] == keys@.take(i as int)[j]);
        }
        let key = keys[i];
        match key {
            InputKey::Jump => {
                let ready = match *last_jump_time {
                    None => true,
                    Some(time) => now - time > birdy::JUMP_COOLDOWN_MS,
                };
                if ready {
                    *last_jump_time = Some(now);
                    flyer.y_velocity = birdy::ACCEL_JUMP;
                }
                proof {
                    assert(keys@.take(i as int + 1).contains(InputKey::Jump)) by {
                        assert(keys@.take(i as int + 1)[i as int] == InputKey::Jump);
                    }
                }
            },
            InputKey::MoveLeft => {
                flyer.x_velocity = -birdy::ACCEL_MOVE;
            },
            InputKey::MoveRight => {
                flyer.x_velocity = birdy::ACCEL_MOVE;
            },
        }
        proof {
            if !keys@.take(i as int).contains(InputKey::Jump) && keys@[i as int]
                != InputKey::Jump {
                assert(forall|j: int|
                    0 <= j < i + 1 ==> #[trigger] keys@.take(i as int + 1)[j] != InputKey::Jump);
            }
        }
        i = i + 1;
    }
    proof {
        assert(keys@.take(keys@.len() as int) =~= keys@);
    }
}

/// The flyer's horizontal velocity after one frame of drag: its magnitude
/// shrinks by the deceleration rate scaled by the elapsed time, clamped at
/// zero so it never flips sign.
pub open spec fn decayed_x_velocity(vx: int, t: int) -> int {
    let d = scaled(-(birdy::DECCEL_MOVE as int), t);
    if vx >= 0 {
        if vx - d >= 0 {
            vx - d
        } else {
            0
        }
    } else {
        if vx + d <= 0 {
            vx + d
        } else {
            0
        }
    }
}

/// The flyer's vertical velocity after one frame of gravity: it accumulates
/// the gravitational acceleration scaled by the elapsed time, floored at the
/// terminal velocity.
pub open spec fn gravity_y_velocity(vy: int, t: int) -> int {
    let g = scaled(-(birdy::ACCEL_GRAV as int), t);
    if vy - g >= birdy::TERMINAL_VELOCITY as int {
        vy - g
    } else {
        birdy::TERMINAL_VELOCITY as int
    }
}

/// Updates the flyer's velocity for the next frame: horizontal drag toward
/// zero and vertical gravity floored at the terminal velocity.
pub fn apply_drag_and_gravity(flyer: &mut PhysObj, time_delta_ms: u64)
    requires
        time_delta_ms <= MAX_TIME_DELTA_MS,
        -MAX_SPEED <= old(flyer).x_velocity <= MAX_SPEED,
        -MAX_SPEED <= old(flyer).y_velocity <= MAX_SPEED,
    ensures
        final(flyer).x_velocity == decayed_x_velocity(
            old(flyer).x_velocity as int,
            time_delta_ms as int,
        ),
        final(flyer).y_velocity == gravity_y_velocity(
            old(flyer).y_velocity as int,
            time_delta_ms as int,
        ),
        final(flyer).x == old(flyer).x,
        final(flyer).y == old(flyer).y,
        final(flyer).width == old(flyer).width,
        final(flyer).height == old(flyer).height,
{
    let d = scaled_velocity(-birdy::DECCEL_MOVE, time_delta_ms);
    if flyer.x_velocity >= 0 {
        let slowed = flyer.x_velocity - d;
        flyer.x_velocity = if slowed >= 0 {
            slowed
        } else {
            0
        };
    } else {
        let slowed = flyer.x_velocity + d;
        flyer.x_velocity = if slowed <= 0 {
            slowed
        } else {
            0
        };
    }
    let g = scaled_velocity(-birdy::ACCEL_GRAV, time_delta_ms);
    let fallen = flyer.y_velocity - g;
    flyer.y_velocity = if fallen >= birdy::TERMINAL_VELOCITY {
        fallen
    } else {
        birdy::TERMINAL_VELOCITY
    };
}

/// Numerator of the fraction of vertical velocity reflected by a bottom
/// bounce; the reflection multiplies the velocity by `-3/4`.
pub const BOUNCE_NUMERATOR: i64 = 3;

/// Denominator of the bounce fraction.
pub const BOUNCE_DENOMINATOR: i64 = 4;

/// Largest coordinate magnitude the boundary resolver accepts; far beyond
/// anything one integration step can produce from inside the playfield.
pub const MAX_COORD: i64 = 4_000_000_000_000_000;

/// The damped reversal of vertical velocity on a bottom bounce: three
/// quarters of the magnitude, rounded toward zero, with the sign flipped.
pub open spec fn bounce_velocity(vy: int) -> int {
    if vy >= 0 {
        -((vy * (BOUNCE_NUMERATOR as int)) / (BOUNCE_DENOMINATOR as int))
    } else {
        ((-vy) * (BOUNCE_NUMERATOR as int)) / (BOUNCE_DENOMINATOR as int)
    }
}

/// The flyer's horizontal position after the left clamp, then the right
/// clamp: each clamp places the crossing edge exactly on the bound.
pub open spec fn clamped_x(x: int, width: int) -> int {
    let xl = if x - width < -(PLAYFIELD_EXTENT as int) {
        -(PLAYFIELD_EXTENT as int) + width
    } else {
        x
    };
    if xl + width > PLAYFIELD_EXTENT as int {
        PLAYFIELD_EXTENT as int - width
    } else {
        xl
    }
}

/// The flyer crossed the bottom bound (before any clamping).
pub open spec fn crossed_bottom(y: int, height: int) -> bool {
    y - height < -(PLAYFIELD_EXTENT as int)
}

/// The flyer's vertical position after the bottom clamp, then the top clamp.
pub open spec fn clamped_y(y: int, height: int) -> int {
    let yb = if crossed_bottom(y, height) {
        -(PLAYFIELD_EXTENT as int) + height
    } else {
        y
    };
    if yb + height > PLAYFIELD_EXTENT as int {
        PLAYFIELD_EXTENT as int - height
    } else {
        yb
    }
}

/// The flyer's vertical velocity after boundary resolution: bounced on a
/// bottom crossing, untouched otherwise.
pub open spec fn bounced_y_velocity(y: int, height: int, vy: int) -> int {
    if crossed_bottom(y, height) {
        bounce_velocity(vy)
    } else {
        vy
    }
}

/// Clamps the flyer to the playfield: the left, right and top bounds clamp
/// position only; the bottom bound clamps position and reflects a damped
/// fraction of the vertical velocity (the bounce).
pub fn resolve_playfield_bounds(flyer: &mut PhysObj)
    requires
        0 <= old(flyer).width <= PLAYFIELD_EXTENT,
        0 <= old(flyer).height <= PLAYFIELD_EXTENT,
        -MAX_COORD <= old(flyer).x <= MAX_COORD,
        -MAX_COORD <= old(flyer).y <= MAX_COORD,
        -MAX_SPEED <= old(flyer).y_velocity <= MAX_SPEED,
    ensures
        final(flyer).x == clamped_x(old(flyer).x as int, old(flyer).width as int),
        final(flyer).y == clamped_y(old(flyer).y as int, old(flyer).height as int),
        final(flyer).y_velocity == bounced_y_velocity(
            old(flyer).y as int,
            old(flyer).height as int,
            old(flyer).y_velocity as int,
        ),
        final(flyer).x_velocity == old(flyer).x_velocity,
        final(flyer).width == old(flyer).width,
        final(flyer).height == old(flyer).height,
{
    if flyer.x - flyer.width < -PLAYFIELD_EXTENT {
        flyer.x = -PLAYFIELD_EXTENT + flyer.width;
    }
    if flyer.x + flyer.width > PLAYFIELD_EXTENT {
        flyer.x = PLAYFIELD_EXTENT - flyer.width;
    }
    if flyer.y - flyer.height < -PLAYFIELD_EXTENT {
        flyer.y = -PLAYFIELD_EXTENT + flyer.height;
        flyer.y_velocity = if flyer.y_velocity >= 0 {
            -((((flyer.y_velocity as u64) * (BOUNCE_NUMERATOR as u64))
                / (BOUNCE_DENOMINATOR as u64)) as i64)
        } else {
            ((((-flyer.y_velocity) as u64) * (BOUNCE_NUMERATOR as u64))
                / (BOUNCE_DENOMINATOR as u64)) as i64
        };
    }
    if flyer.y + flyer.height > PLAYFIELD_EXTENT {
        flyer.y = PLAYFIELD_EXTENT - flyer.height;
    }
}

/// The flyer overlaps at least one entity of `objs`.
pub open spec fn hits_any(f: PhysObj, objs: Seq<PhysObj>) -> bool {
    exists|i: int| 0 <= i < objs.len() && overlap(f, objs[i])
}

/// Whether the flyer overlaps any entity in the list.
pub fn any_overlap(flyer: &PhysObj, objs: &Vec<PhysObj>) -> (r: bool)
    ensures
        r == hits_any(*flyer, objs@),
{
    let mut i: usize = 0;
    while i < objs.len()
        invariant
            0 <= i <= objs@.len(),
            forall|k: int| 0 <= k < i ==> !overlap(*flyer, #[trigger] objs@[k]),
        decreases objs@.len() - i,
    {
        if objs_overlap(*flyer, objs[i]) {
            return true;
        }
        i = i + 1;
    }
    false
}

/// The coins that stay after a collection pass: exactly those that do not
/// overlap the flyer, in their original order.
pub open spec fn remaining_coins(f: PhysObj, s: Seq<PhysObj>) -> Seq<PhysObj>
    decreases s.len(),
{
    if s.len() == 0 {
        Seq::empty()
    } else if overlap(f, s.last()) {
        remaining_coins(f, s.drop_last())
    } else {
        remaining_coins(f, s.drop_last()).push(s.last())
    }
}

/// Removes every coin that overlaps the flyer, keeping the rest in order,
/// and returns how many were collected.
pub fn collect_coins(flyer: &PhysObj, coins: &mut Vec<PhysObj>) -> (collected: usize)
    ensures
        final(coins)@ == remaining_coins(*flyer, old(coins)@),
        collected == old(coins)@.len() - final(coins)@.len(),
{
    let ghost orig: Seq<PhysObj> = coins@;
    let ghost mut j: int = 0;
    let n: usize = coins.len();
    proof {
        assert(orig.len() == n);
    }
    let mut collected: usize = 0;
    let mut i: usize = 0;
    while i < coins.len()
        invariant
            0 <= j <= orig.len(),
            orig.len() <= usize::MAX,
            i == remaining_coins(*flyer, orig.take(j)).len(),
            coins@ == remaining_coins(*flyer, orig.take(j)) + orig.skip(j),
            collected == orig.take(j).len() - remaining_coins(*flyer, orig.take(j)).len(),
        decreases orig.len() - j,
    {
        proof {
            assert(orig.take(j + 1).drop_last() =~= orig.take(j));
            assert(orig.take(j + 1).last() == orig[j]);
            assert(coins@[i as int] == orig[j]) by {
                lemma_remaining_coins_len(*flyer, orig.take(j));
            }
        }
        if objs_overlap(*flyer, coins[i]) {
            coins.remove(i);
            collected = collected + 1;
            proof {
                assert(coins@ =~= remaining_coins(*flyer, orig.take(j + 1)) + orig.skip(j + 1));
            }
        } else {
            i = i + 1;
            proof {
                assert(coins@ =~= remaining_coins(*flyer, orig.take(j + 1)) + orig.skip(j + 1));
            }
        }
        proof {
            j = j + 1;
        }
    }
    proof {
        assert(orig.take(j) =~= orig);
        assert(orig.skip(j) =~= Seq::empty());
        assert(coins@ =~= remaining_coins(*flyer, orig));
    }
    collected
}

/// A collection pass never adds coins.
pub proof fn lemma_remaining_coins_len(f: PhysObj, s: Seq<PhysObj>)
    ensures
        remaining_coins(f, s).len() <= s.len(),
    decreases s.len(),
{
    if s.len() > 0 {
        lemma_remaining_coins_len(f, s.drop_last());
    }
}

/// The flyer as the tick maintains it: non-negative sizes no larger than the
/// playfield half-extent, position inside the playfield, and velocities
/// within what input, gravity and bounce can produce.
pub open spec fn flyer_wf(f: PhysObj) -> bool {
    &&& 0 <= f.width <= PLAYFIELD_EXTENT
    &&& 0 <= f.height <= PLAYFIELD_EXTENT
    &&& -PLAYFIELD_EXTENT <= f.x <= PLAYFIELD_EXTENT
    &&& -PLAYFIELD_EXTENT <= f.y <= PLAYFIELD_EXTENT
    &&& -birdy::ACCEL_MOVE <= f.x_velocity <= birdy::ACCEL_MOVE
    &&& birdy::TERMINAL_VELOCITY <= f.y_velocity <= birdy::ACCEL_JUMP
}

/// The part of a rock's or coin's well-formedness that motion preserves:
/// non-negative sizes, a box inside the playfield horizontally, no
/// horizontal motion, and bounded vertical speed.
pub open spec fn obj_static_wf(o: PhysObj) -> bool {
    &&& 0 <= o.width
    &&& 0 <= o.height
    &&& o.x + o.width <= PLAYFIELD_EXTENT
    &&& o.x - o.width >= -PLAYFIELD_EXTENT
    &&& o.x_velocity == 0
    &&& -MAX_FALL_SPEED <= o.y_velocity <= MAX_FALL_SPEED
}

/// A rock or coin as the tick maintains it: additionally within the despawn
/// distance vertically.
pub open spec fn obj_wf(o: PhysObj) -> bool {
    &&& obj_static_wf(o)
    &&& within_despawn_distance(o)
}

/// A recorded timestamp does not lie in the future.
pub open spec fn recorded_before(ts: Option<u64>, now: u64) -> bool {
    match ts {
        Some(v) => v <= now,
        None => true,
    }
}

/// An entity after one integration step of `t` milliseconds.
pub open spec fn moved_obj(o: PhysObj, t: int) -> PhysObj {
    PhysObj {
        x: (o.x + scaled(o.x_velocity as int, t)) as i64,
        y: (o.y + scaled(o.y_velocity as int, t)) as i64,
        x_velocity: o.x_velocity,
        y_velocity: o.y_velocity,
        width: o.width,
        height: o.height,
    }
}

/// A collection after one integration step of `t` milliseconds.
pub open spec fn moved_objs(s: Seq<PhysObj>, t: int) -> Seq<PhysObj> {
    Seq::new(s.len(), |i: int| moved_obj(s[i], t))
}

/// The flyer after a whole tick: input applied, position integrated with
/// the post-input velocity, drag and gravity applied for the next frame,
/// and the playfield bounds resolved.
pub open spec fn flyer_after_tick(
    f: PhysObj,
    keys: Seq<InputKey>,
    last_jump_time: Option<u64>,
    now: u64,
    t: int,
) -> PhysObj {
    let vx1 = vx_after_keys(keys, f.x_velocity as int);
    let vy1 = if jump_triggered(keys, last_jump_time, now) {
        birdy::ACCEL_JUMP as int
    } else {
        f.y_velocity as int
    };
    let x_moved = f.x + scaled(vx1, t);
    let y_moved = f.y + scaled(vy1, t);
    PhysObj {
        x: clamped_x(x_moved, f.width as int) as i64,
        y: clamped_y(y_moved, f.height as int) as i64,
        x_velocity: decayed_x_velocity(vx1, t) as i64,
        y_velocity: bounced_y_velocity(y_moved, f.height as int, gravity_y_velocity(vy1, t)) as i64,
        width: f.width,
        height: f.height,
    }
}

/// The flyer that this tick produces from game state `s`.
pub open spec fn tick_flyer(s: GameState, now: u64, t: int) -> PhysObj {
    flyer_after_tick(s.birdy, s.keys@, s.last_jump_time, now, t)
}

/// The rock spawner fires this tick.
pub open spec fn rock_spawn_fires(s: GameState, now: u64) -> bool {
    cooldown_elapsed(s.last_rock_spawn_time, now, rock::COOLDOWN_MS)
}

/// The coin spawner fires this tick.
pub open spec fn coin_spawn_fires(s: GameState, now: u64) -> bool {
    cooldown_elapsed(s.last_coin_spawn_time, now, coin::COOLDOWN_MS)
}

/// The rock collection after this tick: integrated, the pre-drawn rock
/// appended when the spawner fires, and far entities despawned.
pub open spec fn rocks_after_tick(s: GameState, now: u64, t: int) -> Seq<PhysObj> {
    let moved = moved_objs(s.rocks@, t);
    if rock_spawn_fires(s, now) {
        surviving(moved.push(s.next_rock))
    } else {
        surviving(moved)
    }
}

/// The coin collection after integration, spawning and despawning, before
/// any coin is collected.
pub open spec fn coins_after_despawn(s: GameState, now: u64, t: int) -> Seq<PhysObj> {
    let moved = moved_objs(s.coins@, t);
    if coin_spawn_fires(s, now) {
        surviving(moved.push(s.next_coin))
    } else {
        surviving(moved)
    }
}

/// This tick kills the flyer: after motion, spawning, despawning and
/// boundary resolution, some rock overlaps the flyer.
pub open spec fn tick_killed(s: GameState, now: u64, t: int) -> bool {
    hits_any(tick_flyer(s, now, t), rocks_after_tick(s, now, t))
}

/// The coin collection after this tick: a fatal rock collision leaves it as
/// it stood after despawning; otherwise every coin overlapping the flyer is
/// collected.
pub open spec fn coins_after_tick(s: GameState, now: u64, t: int) -> Seq<PhysObj> {
    if tick_killed(s, now, t) {
        coins_after_despawn(s, now, t)
    } else {
        remaining_coins(tick_flyer(s, now, t), coins_after_despawn(s, now, t))
    }
}

/// The score after this tick: one point per collected coin, unchanged on a
/// fatal collision.
pub open spec fn score_after_tick(s: GameState, now: u64, t: int) -> int {
    s.score + coins_after_despawn(s, now, t).len() - coins_after_tick(s, now, t).len()
}

/// An entity after a whole sequence of integration steps, one per elapsed
/// time in `ts`, applied in order.
pub open spec fn moved_obj_n(o: PhysObj, ts: Seq<int>) -> PhysObj
    decreases ts.len(),
{
    if ts.len() == 0 {
        o
    } else {
        moved_obj(moved_obj_n(o, ts.drop_last()), ts.last())
    }
}

/// Law: an entity with zero velocity does not move, however many
/// integration steps are applied and whatever each step's elapsed time is.
pub proof fn lemma_zero_velocity_stays_put(o: PhysObj, ts: Seq<int>)
    requires
        o.x_velocity == 0,
        o.y_velocity == 0,
    ensures
        moved_obj_n(o, ts) == o,
    decreases ts.len(),
{
    if ts.len() > 0 {
        lemma_zero_velocity_stays_put(o, ts.drop_last());
    }
}

/// The survivors of a despawn pass are never more numerous than the input.
pub proof fn lemma_surviving_len(s: Seq<PhysObj>)
    ensures
        surviving(s).len() <= s.len(),
    decreases s.len(),
{
    if s.len() > 0 {
        lemma_surviving_len(s.drop_last());
    }
}

/// One integration step moves a position by at most `MAX_SPEED` units per
/// second for `MAX_TIME_DELTA_MS` milliseconds.
proof fn lemma_scaled_bounds(v: int, t: int)
    requires
        -(MAX_SPEED as int) <= v <= MAX_SPEED as int,
        0 <= t <= MAX_TIME_DELTA_MS as int,
    ensures
        -1_000_000_000_000_000 <= scaled(v, t) <= 1_000_000_000_000_000,
{
    if v >= 0 {
        assert(0 <= v * t <= 1_000_000_000_000_000_000) by (nonlinear_arith)
            requires
                0 <= v <= 1_000_000,
                0 <= t <= 1_000_000_000_000,
        ;
    } else {
        assert(0 <= (-v) * t <= 1_000_000_000_000_000_000) by (nonlinear_arith)
            requires
                0 <= -v <= 1_000_000,
                0 <= t <= 1_000_000_000_000,
        ;
    }
}

/// Despawning a collection of well-formed-in-flight entities leaves only
/// well-formed entities: the survivors keep their static properties and are
/// within the despawn distance.
proof fn lemma_surviving_wf(s: Seq<PhysObj>)
    requires
        forall|i: int| 0 <= i < s.len() ==> obj_static_wf(#[trigger] s[i]),
    ensures
        forall|i: int| 0 <= i < surviving(s).len() ==> obj_wf(#[trigger] surviving(s)[i]),
    decreases s.len(),
{
    if s.len() > 0 {
        let rest = s.drop_last();
        assert(forall|i: int| 0 <= i < rest.len() ==> obj_static_wf(#[trigger] rest[i])) by {
            assert(forall|i: int| 0 <= i < rest.len() ==> rest[i] == s[i]);
        }
        lemma_surviving_wf(rest);
        assert(obj_static_wf(s.last()));
        if within_despawn_distance(s.last()) {
            assert forall|i: int| 0 <= i < surviving(s).len() implies obj_wf(
                #[trigger] surviving(s)[i],
            ) by {
                if i < surviving(rest).len() {
                    assert(surviving(s)[i] == surviving(rest)[i]);
                } else {
                    assert(surviving(s)[i] == s.last());
                }
            }
        }
    }
}

/// Collecting coins from a well-formed collection leaves only well-formed
/// coins.
proof fn lemma_remaining_coins_wf(f: PhysObj, s: Seq<PhysObj>)
    requires
        forall|i: int| 0 <= i < s.len() ==> obj_wf(#[trigger] s[i]),
    ensures
        forall|i: int|
            0 <= i < remaining_coins(f, s).len() ==> obj_wf(#[trigger] remaining_coins(f, s)[i]),
    decreases s.len(),
{
    if s.len() > 0 {
        let rest = s.drop_last();
        assert(forall|i: int| 0 <= i < rest.len() ==> obj_wf(#[trigger] rest[i])) by {
            assert(forall|i: int| 0 <= i < rest.len() ==> rest[i] == s[i]);
        }
        lemma_remaining_coins_wf(f, rest);
        assert(obj_wf(s.last()));
        if !overlap(f, s.last()) {
            assert forall|i: int| 0 <= i < remaining_coins(f, s).len() implies obj_wf(
                #[trigger] remaining_coins(f, s)[i],
            ) by {
                if i < remaining_coins(f, rest).len() {
                    assert(remaining_coins(f, s)[i] == remaining_coins(f, rest)[i]);
                } else {
                    assert(remaining_coins(f, s)[i] == s.last());
                }
            }
        }
    }
}

/// The held-key pass either keeps the horizontal velocity or sets it to one
/// of the two lateral impulses.
proof fn lemma_vx_after_keys_cases(keys: Seq<InputKey>, vx0: int)
    ensures
        vx_after_keys(keys, vx0) == vx0 || vx_after_keys(keys, vx0) == birdy::ACCEL_MOVE as int
            || vx_after_keys(keys, vx0) == -(birdy::ACCEL_MOVE as int),
    decreases keys.len(),
{
    if keys.len() > 0 {
        lemma_vx_after_keys_cases(keys.drop_last(), vx0);
    }
}

/// Advances every entity in the collection by one integration step.
pub fn integrate_objs(objs: &mut Vec<PhysObj>, time_delta_ms: u64)
    requires
        time_delta_ms <= MAX_TIME_DELTA_MS,
        forall|k: int| 0 <= k < old(objs)@.len() ==> obj_wf(#[trigger] old(objs)@[k]),
    ensures
        final(objs)@ == moved_objs(old(objs)@, time_delta_ms as int),
{
    let ghost orig: Seq<PhysObj> = objs@;
    let ghost t: int = time_delta_ms as int;
    let mut i: usize = 0;
    while i < objs.len()
        invariant
            0 <= i <= orig.len(),
            objs@.len() == orig.len(),
            time_delta_ms <= MAX_TIME_DELTA_MS,
            t == time_delta_ms as int,
            forall|k: int| 0 <= k < orig.len() ==> obj_wf(#[trigger] orig[k]),
            forall|k: int| 0 <= k < i ==> objs@[k] == moved_obj(orig[k], t),
            forall|k: int| i <= k < orig.len() ==> objs@[k] == orig[k],
        decreases orig.len() - i,
    {
        let mut o = objs[i];
        proof {
            assert(o == orig[i as int]);
            assert(obj_wf(orig[i as int]));
            lemma_scaled_bounds(o.x_velocity as int, t);
            lemma_scaled_bounds(o.y_velocity as int, t);
        }
        o.position_delta(time_delta_ms);
        objs[i] = o;
        i = i + 1;
    }
    proof {
        assert(objs@ =~= moved_objs(orig, t));
    }
}

/// One simulation step. Applies the held keys to the flyer's velocity,
/// integrates every entity's position, applies drag and gravity to the
/// flyer for the next frame, runs the two cooldown-gated spawners, despawns
/// far entities, clamps the flyer to the playfield (bouncing off the bottom
/// bound), and resolves collisions: a rock overlap kills the flyer and ends
/// the tick at once; otherwise every overlapping coin is collected and
/// scores a point. A tick on a dead state changes nothing.
pub fn tick(game_state: &mut GameState, now: u64, time_delta_ms: u64)
    requires
        old(game_state).wf(),
        recorded_before(old(game_state).last_jump_time, now),
        recorded_before(old(game_state).last_rock_spawn_time, now),
        recorded_before(old(game_state).last_coin_spawn_time, now),
        time_delta_ms <= MAX_TIME_DELTA_MS,
        old(game_state).score + old(game_state).coins@.len() < u32::MAX,
    ensures
        old(game_state).dead ==> *final(game_state) == *old(game_state),
        !old(game_state).dead ==> final(game_state).birdy == tick_flyer(
            *old(game_state),
            now,
            time_delta_ms as int,
        ),
        !old(game_state).dead ==> final(game_state).rocks@ == rocks_after_tick(
            *old(game_state),
            now,
            time_delta_ms as int,
        ),
        !old(game_state).dead ==> final(game_state).coins@ == coins_after_tick(
            *old(game_state),
            now,
            time_delta_ms as int,
        ),
        !old(game_state).dead ==> final(game_state).dead == tick_killed(
            *old(game_state),
            now,
            time_delta_ms as int,
        ),
        !old(game_state).dead ==> final(game_state).score == score_after_tick(
            *old(game_state),
            now,
            time_delta_ms as int,
        ),
        !old(game_state).dead ==> final(game_state).last_jump_time == (
        if jump_triggered(old(game_state).keys@, old(game_state).last_jump_time, now) {
            Some(now)
        } else {
            old(game_state).last_jump_time
        }),
        !old(game_state).dead ==> final(game_state).last_rock_spawn_time == (
        if rock_spawn_fires(*old(game_state), now) {
            Some(now)
        } else {
            old(game_state).last_rock_spawn_time
        }),
        !old(game_state).dead ==> final(game_state).rock_fall_direction as int == (
        if rock_spawn_fires(*old(game_state), now) {
            -(old(game_state).rock_fall_direction as int)
        } else {
            old(game_state).rock_fall_direction as int
        }),
        !old(game_state).dead && rock_spawn_fires(*old(game_state), now)
            ==> rock::spawned_rock(
            final(game_state).next_rock,
            final(game_state).rock_fall_direction as int,
        ),
        !old(game_state).dead && !rock_spawn_fires(*old(game_state), now)
            ==> final(game_state).next_rock == old(game_state).next_rock,
        !old(game_state).dead ==> final(game_state).last_coin_spawn_time == (
        if coin_spawn_fires(*old(game_state), now) {
            Some(now)
        } else {
            old(game_state).last_coin_spawn_time
        }),
        !old(game_state).dead && coin_spawn_fires(*old(game_state), now)
            ==> coin::spawned_coin(final(game_state).next_coin),
        !old(game_state).dead && !coin_spawn_fires(*old(game_state), now)
            ==> final(game_state).next_coin == old(game_state).next_coin,
        final(game_state).keys@ == old(game_state).keys@,
        final(game_state).score >= old(game_state).score,
        final(game_state).wf(),
{
    if game_state.dead {
        return;
    }
    let ghost g: GameState = *game_state;
    let ghost t: int = time_delta_ms as int;

    // Input responder: keys set velocities for this frame's integration.
    apply_input(&mut game_state.birdy, &mut game_state.last_jump_time, &game_state.keys, now);
    proof {
        lemma_vx_after_keys_cases(g.keys@, g.birdy.x_velocity as int);
        lemma_scaled_bounds(game_state.birdy.x_velocity as int, t);
        lemma_scaled_bounds(game_state.birdy.y_velocity as int, t);
    }

    // Motion integrator: the flyer, then every rock and coin.
    game_state.birdy.position_delta(time_delta_ms);
    integrate_objs(&mut game_state.rocks, time_delta_ms);
    integrate_objs(&mut game_state.coins, time_delta_ms);

    // Drag and gravity: the flyer's velocity for the next frame.
    apply_drag_and_gravity(&mut game_state.birdy, time_delta_ms);

    // Rock spawning and despawning.
    if spawn_obj(
        &mut game_state.last_rock_spawn_time,
        now,
        rock::COOLDOWN_MS,
        game_state.next_rock,
        &mut game_state.rocks,
    ) {
        game_state.rock_fall_direction = -game_state.rock_fall_direction;
        game_state.next_rock = rock::new_rock(game_state.rock_fall_direction);
    }
    despawn_objs(&mut game_state.rocks);

    // Coin spawning and despawning.
    if spawn_obj(
        &mut game_state.last_coin_spawn_time,
        now,
        coin::COOLDOWN_MS,
        game_state.next_coin,
        &mut game_state.coins,
    ) {
        game_state.next_coin = coin::new_coin();
    }
    despawn_objs(&mut game_state.coins);

    // Playfield boundary: clamp the flyer, bounce off the bottom bound.
    resolve_playfield_bounds(&mut game_state.birdy);
    proof {
        assert(game_state.birdy == tick_flyer(g, now, t));
        assert(game_state.rocks@ == rocks_after_tick(g, now, t));
        assert(game_state.coins@ == coins_after_despawn(g, now, t));
        lemma_surviving_wf(
            if rock_spawn_fires(g, now) {
                moved_objs(g.rocks@, t).push(g.next_rock)
            } else {
                moved_objs(g.rocks@, t)
            },
        );
        lemma_surviving_wf(
            if coin_spawn_fires(g, now) {
                moved_objs(g.coins@, t).push(g.next_coin)
            } else {
                moved_objs(g.coins@, t)
            },
        );
    }

    // Rock collision: any overlap is fatal and ends the tick at once.
    if any_overlap(&game_state.birdy, &game_state.rocks) {
        game_state.dead = true;
        return;
    }

    // Coin collision: collect every overlapping coin and score a point each.
    let collected = collect_coins(&game_state.birdy, &mut game_state.coins);
    proof {
        lemma_remaining_coins_wf(game_state.birdy, coins_after_despawn(g, now, t));
        lemma_surviving_len(
            if coin_spawn_fires(g, now) {
                moved_objs(g.coins@, t).push(g.next_coin)
            } else {
                moved_objs(g.coins@, t)
            },
        );
    }
    game_state.score = game_state.score + (collected as u32);
}

} // verus!

