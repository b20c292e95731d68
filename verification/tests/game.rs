use flap::logic::{apply_input, tick, InputKey, PhysObj};
use flap::logic::birdy;
use flap::GameState;

fn still_obj(x: i64, y: i64, width: i64, height: i64) -> PhysObj {
    PhysObj { x, y, x_velocity: 0, y_velocity: 0, width, height }
}

/// A fresh state whose spawners are muzzled at `now`, so a tick at `now`
/// changes only what the test puts in.
fn quiet_state(now: u64) -> GameState {
    let mut s = GameState::new();
    s.last_rock_spawn_time = Some(now);
    s.last_coin_spawn_time = Some(now);
    s
}

#[test]
fn new_game_state_is_centered_and_empty() {
    let s = GameState::new();
    assert_eq!(s.birdy, still_obj(0, 0, birdy::BIRDY_SIZE, birdy::BIRDY_SIZE));
    assert!(s.rocks.is_empty());
    assert!(s.coins.is_empty());
    assert!(s.keys.is_empty());
    assert_eq!(s.score, 0);
    assert!(!s.dead);
    assert_eq!(s.last_jump_time, None);
    assert_eq!(s.last_rock_spawn_time, None);
    assert_eq!(s.last_coin_spawn_time, None);
    assert_eq!(s.rock_fall_direction, 1);
    assert_eq!(s.next_rock.y, 1500);
}

#[test]
fn jump_is_refused_within_cooldown_and_allowed_after() {
    let mut flyer = still_obj(0, 0, 50, 50);
    let keys = vec![InputKey::Jump];
    let mut last_jump: Option<u64> = None;

    // jump at t = 0 fires and records the time
    apply_input(&mut flyer, &mut last_jump, &keys, 0);
    assert_eq!(flyer.y_velocity, birdy::ACCEL_JUMP);
    assert_eq!(last_jump, Some(0));

    // a second attempt 100 ms later (cooldown 250 ms) must not fire
    flyer.y_velocity = -123;
    apply_input(&mut flyer, &mut last_jump, &keys, 100);
    assert_eq!(flyer.y_velocity, -123);
    assert_eq!(last_jump, Some(0));

    // an attempt at 300 ms must fire
    apply_input(&mut flyer, &mut last_jump, &keys, 300);
    assert_eq!(flyer.y_velocity, birdy::ACCEL_JUMP);
    assert_eq!(last_jump, Some(300));
}

#[test]
fn last_held_direction_key_wins() {
    let mut flyer = still_obj(0, 0, 50, 50);
    let mut last_jump: Option<u64> = None;

    let keys = vec![InputKey::MoveLeft, InputKey::MoveRight];
    apply_input(&mut flyer, &mut last_jump, &keys, 0);
    assert_eq!(flyer.x_velocity, birdy::ACCEL_MOVE);

    let keys = vec![InputKey::MoveRight, InputKey::MoveLeft];
    apply_input(&mut flyer, &mut last_jump, &keys, 0);
    assert_eq!(flyer.x_velocity, -birdy::ACCEL_MOVE);
}

#[test]
fn overlapping_rock_kills_and_leaves_score_alone() {
    let now = 1000;
    let mut s = quiet_state(now);
    s.rocks.push(still_obj(0, 0, 100, 100));
    tick(&mut s, now, 0);
    assert!(s.dead);
    assert_eq!(s.score, 0);
    assert_eq!(s.rocks.len(), 1);
}

#[test]
fn overlapping_coin_scores_and_is_consumed() {
    let now = 1000;
    let mut s = quiet_state(now);
    let coin = still_obj(20, 20, 80, 80);
    s.coins.push(coin);
    tick(&mut s, now, 0);
    assert!(!s.dead);
    assert_eq!(s.score, 1);
    assert!(s.coins.is_empty());
}

#[test]
fn several_coins_can_be_collected_in_one_tick() {
    let now = 1000;
    let mut s = quiet_state(now);
    s.coins.push(still_obj(10, 0, 80, 80));
    s.coins.push(still_obj(0, 2000, 80, 80)); // far away, stays
    s.coins.push(still_obj(-10, 0, 80, 80));
    tick(&mut s, now, 0);
    assert_eq!(s.score, 2);
    assert_eq!(s.coins.len(), 1);
    assert_eq!(s.coins[0], still_obj(0, 2000, 80, 80));
}

#[test]
fn tick_on_dead_state_changes_nothing() {
    let now = 1000;
    let mut s = quiet_state(now);
    s.coins.push(still_obj(0, 0, 80, 80));
    s.rocks.push(still_obj(500, 500, 80, 80));
    s.score = 7;
    s.dead = true;
    let rocks_before = s.rocks.clone();
    let coins_before = s.coins.clone();
    tick(&mut s, now + 500, 16);
    assert!(s.dead);
    assert_eq!(s.score, 7);
    assert_eq!(s.rocks, rocks_before);
    assert_eq!(s.coins, coins_before);
}

#[test]
fn rock_fall_direction_alternates_each_spawn() {
    let mut s = GameState::new();
    s.last_coin_spawn_time = Some(0);

    // the rock spawner has never fired, so the first tick spawns at once
    tick(&mut s, 0, 0);
    assert!(!s.dead);
    assert_eq!(s.rocks.len(), 1);
    assert_eq!(s.rocks[0].y, 1500);
    assert_eq!(s.rock_fall_direction, -1);
    assert_eq!(s.next_rock.y, -1500);
    assert_eq!(s.last_rock_spawn_time, Some(0));

    // past the cooldown the pre-drawn rock spawns on the other side
    s.last_coin_spawn_time = Some(1500);
    tick(&mut s, 1500, 0);
    assert_eq!(s.rocks.len(), 2);
    assert_eq!(s.rocks[1].y, -1500);
    assert_eq!(s.rock_fall_direction, 1);
    assert_eq!(s.next_rock.y, 1500);
}

#[test]
fn input_moves_the_flyer_in_the_same_frame() {
    let now = 1000;
    let mut s = quiet_state(now);
    s.keys.push(InputKey::MoveRight);
    tick(&mut s, now, 1000);
    // the lateral impulse integrates this frame, then drag wipes it out
    assert_eq!(s.birdy.x, 400);
    assert_eq!(s.birdy.x_velocity, 0);
    // gravity only affects the next frame's motion, floored at terminal
    assert_eq!(s.birdy.y, 0);
    assert_eq!(s.birdy.y_velocity, birdy::TERMINAL_VELOCITY);
}

#[test]
fn score_never_decreases_while_alive() {
    let mut s = GameState::new();
    let mut now = 0;
    let mut last_score = 0;
    for _ in 0..50 {
        if s.dead {
            break;
        }
        tick(&mut s, now, 16);
        assert!(s.score >= last_score);
        last_score = s.score;
        now += 16;
    }
}
