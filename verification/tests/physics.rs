use flap::logic::{objs_overlap, resolve_playfield_bounds, apply_drag_and_gravity, PhysObj};

fn still_obj(x: i64, y: i64, width: i64, height: i64) -> PhysObj {
    PhysObj { x, y, x_velocity: 0, y_velocity: 0, width, height }
}

#[test]
fn zero_velocity_never_moves() {
    let mut o = still_obj(123, -456, 50, 50);
    for step in 0..10u64 {
        o.position_delta(step * 137);
    }
    assert_eq!(o.x, 123);
    assert_eq!(o.y, -456);
}

#[test]
fn integration_is_exactly_linear() {
    let mut o = PhysObj { x: 10, y: -20, x_velocity: 400, y_velocity: -250, width: 50, height: 50 };
    o.position_delta(500);
    assert_eq!(o.x, 10 + 400 * 500 / 1000);
    assert_eq!(o.y, -20 - 250 * 500 / 1000);
    assert_eq!(o.x, 210);
    assert_eq!(o.y, -145);
    assert_eq!(o.x_velocity, 400);
    assert_eq!(o.y_velocity, -250);
}

#[test]
fn overlapping_boxes_overlap() {
    // boxes [-0.1,0.1]x[-0.1,0.1] and [0.05,0.25]x[0,0.2] share [0.05,0.1]x[0,0.1]
    let a = still_obj(0, 0, 100, 100);
    let b = still_obj(150, 100, 100, 100);
    assert!(objs_overlap(a, b));
    assert!(objs_overlap(b, a));
}

#[test]
fn touching_boxes_do_not_overlap() {
    // boxes [-0.1,0.1] and [0.1,0.3]: edges touch, do not cross
    let a = still_obj(0, 0, 100, 100);
    let b = still_obj(200, 0, 100, 100);
    assert!(!objs_overlap(a, b));
    assert!(!objs_overlap(b, a));
}

#[test]
fn bottom_bounce_reflects_damped_velocity() {
    // approaching the bottom bound at -1.0, bounce coefficient -0.75:
    // velocity becomes +0.75 and position is clamped to bound plus half-extent
    let mut f = PhysObj { x: 0, y: -1200, x_velocity: 0, y_velocity: -1000, width: 50, height: 50 };
    resolve_playfield_bounds(&mut f);
    assert_eq!(f.y, -1000 + 50);
    assert_eq!(f.y_velocity, 750);
}

#[test]
fn top_and_side_clamps_do_not_bounce() {
    let mut f = PhysObj { x: 1200, y: 1100, x_velocity: 300, y_velocity: 200, width: 50, height: 50 };
    resolve_playfield_bounds(&mut f);
    assert_eq!(f.x, 1000 - 50);
    assert_eq!(f.y, 1000 - 50);
    assert_eq!(f.x_velocity, 300);
    assert_eq!(f.y_velocity, 200);

    let mut g = PhysObj { x: -1700, y: 0, x_velocity: -300, y_velocity: 0, width: 50, height: 50 };
    resolve_playfield_bounds(&mut g);
    assert_eq!(g.x, -1000 + 50);
    assert_eq!(g.x_velocity, -300);
}

#[test]
fn drag_decays_toward_zero_without_overshoot() {
    let mut f = PhysObj { x: 0, y: 0, x_velocity: 400, y_velocity: 0, width: 50, height: 50 };
    apply_drag_and_gravity(&mut f, 500);
    // 600 units/s of drag for half a second
    assert_eq!(f.x_velocity, 100);
    apply_drag_and_gravity(&mut f, 500);
    // would overshoot to -200; clamps at zero instead
    assert_eq!(f.x_velocity, 0);

    let mut g = PhysObj { x: 0, y: 0, x_velocity: -400, y_velocity: 0, width: 50, height: 50 };
    apply_drag_and_gravity(&mut g, 500);
    assert_eq!(g.x_velocity, -100);
}

#[test]
fn gravity_accumulates_and_floors_at_terminal_velocity() {
    let mut f = PhysObj { x: 0, y: 0, x_velocity: 0, y_velocity: 0, width: 50, height: 50 };
    apply_drag_and_gravity(&mut f, 500);
    // -900 units/s^2 for half a second
    assert_eq!(f.y_velocity, -450);
    apply_drag_and_gravity(&mut f, 500);
    // -900 would exceed the terminal velocity of -600
    assert_eq!(f.y_velocity, -600);
}
