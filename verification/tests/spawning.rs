use flap::logic::{despawn_objs, spawn_obj, PhysObj};
use flap::logic::{coin, rock};

fn still_obj(x: i64, y: i64, width: i64, height: i64) -> PhysObj {
    PhysObj { x, y, x_velocity: 0, y_velocity: 0, width, height }
}

#[test]
fn spawned_entities_stay_inside_horizontal_bounds() {
    for _ in 0..1000 {
        let r = rock::new_rock(1);
        assert!(r.x + r.width <= 1000);
        assert!(r.x - r.width >= -1000);
        assert!(r.width >= rock::MIN_SIZE && r.width <= rock::MAX_SIZE);
        assert_eq!(r.height, r.width);
        assert_eq!(r.y, rock::SPAWN_DIST);
        assert!(r.y_velocity <= -rock::MIN_VELOCITY && r.y_velocity >= -rock::MAX_VELOCITY);

        let c = coin::new_coin();
        assert!(c.x + c.width <= 1000);
        assert!(c.x - c.width >= -1000);
        assert!(c.width >= coin::MIN_SIZE && c.width <= coin::MAX_SIZE);
        assert_eq!(c.y.abs(), coin::SPAWN_DIST);
        let speed = c.y_velocity.abs();
        assert!(speed >= coin::MIN_VELOCITY && speed <= coin::MAX_VELOCITY);
        // the coin travels toward the playfield center
        assert!(c.y.signum() == -c.y_velocity.signum());
    }
}

#[test]
fn rocks_fall_in_the_requested_direction() {
    let up = rock::new_rock(-1);
    assert_eq!(up.y, -rock::SPAWN_DIST);
    assert!(up.y_velocity >= rock::MIN_VELOCITY && up.y_velocity <= rock::MAX_VELOCITY);
}

#[test]
fn despawner_keeps_near_and_drops_far() {
    // one entity just past the despawn distance, one just inside it
    let far = still_obj(0, 2501, 50, 50);
    let near = still_obj(0, 2499, 50, 50);
    let far_below = still_obj(0, -2501, 50, 50);
    let mut objs = vec![far, near, far_below];
    despawn_objs(&mut objs);
    assert_eq!(objs.len(), 1);
    assert_eq!(objs[0], near);
}

#[test]
fn despawner_keeps_order_of_survivors() {
    let a = still_obj(-100, 0, 10, 10);
    let b = still_obj(0, 3000, 10, 10);
    let c = still_obj(100, -2500, 10, 10);
    let d = still_obj(200, 2500, 10, 10);
    let mut objs = vec![a, b, c, d];
    despawn_objs(&mut objs);
    assert_eq!(objs, vec![a, c, d]);
}

#[test]
fn spawner_is_immediately_eligible_when_never_fired() {
    let mut last: Option<u64> = None;
    let mut list: Vec<PhysObj> = Vec::new();
    let obj = still_obj(0, 1500, 60, 60);
    assert!(spawn_obj(&mut last, 5, 1000, obj, &mut list));
    assert_eq!(last, Some(5));
    assert_eq!(list.len(), 1);
    assert_eq!(list[0], obj);
}

#[test]
fn spawner_cooldown_is_strict() {
    let obj = still_obj(0, 1500, 60, 60);

    // exactly the cooldown is not enough
    let mut last: Option<u64> = Some(0);
    let mut list: Vec<PhysObj> = Vec::new();
    assert!(!spawn_obj(&mut last, 1000, 1000, obj, &mut list));
    assert_eq!(last, Some(0));
    assert!(list.is_empty());

    // one millisecond past the cooldown fires
    assert!(spawn_obj(&mut last, 1001, 1000, obj, &mut list));
    assert_eq!(last, Some(1001));
    assert_eq!(list.len(), 1);
}
