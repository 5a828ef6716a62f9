use bouncers::body::{Body, Velocity};
use bouncers::collision::{query_collisions, resolve, Contact, Resolution};
use bouncers::geometry::{Bounds, Point, SIDE, SPEED, UNIT};
use bouncers::world::{update_body, World};

fn body(x: i64, y: i64, vx: i64, vy: i64) -> Body {
    Body::new(Point::new(x * UNIT, y * UNIT), Velocity::new(vx, vy))
}

fn screen() -> Bounds {
    Bounds::new(1280 * UNIT, 1024 * UNIT)
}

#[test]
fn moves_by_previous_velocity() {
    let bodies = vec![body(100, 100, 50, 50)];
    let r = update_body(&bodies, 0, screen(), 1_000_000);
    assert_eq!(r.center(), Point::new(150 * UNIT, 150 * UNIT));
    assert_eq!(r.velocity, Velocity::new(50, 50));
}

#[test]
fn move_uses_old_velocity_when_velocity_changes() {
    // Left of the area: the velocity turns, the move this frame does not.
    let bodies = vec![body(-10, 100, -50, 50)];
    let r = update_body(&bodies, 0, screen(), 1_000_000);
    assert_eq!(r.center(), Point::new(-60 * UNIT, 150 * UNIT));
    assert_eq!(r.velocity, Velocity::new(SPEED, 50));
}

#[test]
fn idle_frame_changes_nothing() {
    let bodies = vec![body(300, 300, 50, -50), body(600, 600, -50, 50)];
    let r = update_body(&bodies, 0, screen(), 0);
    assert_eq!(r, bodies[0]);
    let mut w = World::from_bodies(bodies.clone());
    w.step(screen(), 0);
    assert_eq!(w.bodies, bodies);
}

#[test]
fn right_boundary_scenario() {
    let mut w = World::from_bodies(vec![body(1285, 100, 50, 0)]);
    let bounds = Bounds::new(1280 * UNIT, 1024 * UNIT);
    w.step(bounds, 100_000);
    assert_eq!(w.bodies[0].velocity.x, -50);
    assert_eq!(w.bodies[0].center(), Point::new(1290 * UNIT, 100 * UNIT));
    w.step(bounds, 100_000);
    assert_eq!(w.bodies[0].center(), Point::new(1285 * UNIT, 100 * UNIT));
}

#[test]
fn near_boundary_inside_is_not_redirected() {
    let bodies = vec![body(1275, 100, 50, 50)];
    let r = update_body(&bodies, 0, screen(), 100_000);
    assert_eq!(r.velocity, Velocity::new(50, 50));
    assert_eq!(r.center(), Point::new(1280 * UNIT, 105 * UNIT));
}

#[test]
fn exactly_on_boundary_is_not_redirected() {
    let bodies = vec![body(1280, 0, 50, -50), body(0, 1024, -50, 50)];
    let a = update_body(&bodies, 0, screen(), 0);
    let b = update_body(&bodies, 1, screen(), 0);
    assert_eq!(a.velocity, Velocity::new(50, -50));
    assert_eq!(b.velocity, Velocity::new(-50, 50));
}

#[test]
fn every_boundary_turns_inward() {
    let bodies = vec![
        body(-1, -1, -50, -50),
        body(1281, 1025, 50, 50),
        body(-1, 1025, -50, 50),
        body(1281, -1, 50, -50),
    ];
    let b = screen();
    assert_eq!(update_body(&bodies, 0, b, 0).velocity, Velocity::new(50, 50));
    assert_eq!(update_body(&bodies, 1, b, 0).velocity, Velocity::new(-50, -50));
    assert_eq!(update_body(&bodies, 2, b, 0).velocity, Velocity::new(50, -50));
    assert_eq!(update_body(&bodies, 3, b, 0).velocity, Velocity::new(-50, 50));
}

#[test]
fn overlapping_pair_pushes_apart_along_x() {
    let bodies = vec![body(100, 100, 50, 50), body(105, 100, -50, 50)];
    let a = query_collisions(&bodies, 0);
    let b = query_collisions(&bodies, 1);
    assert_eq!(a.len(), 1);
    assert_eq!(b.len(), 1);
    assert_eq!(a[0].other, 1);
    assert_eq!(b[0].other, 0);
    assert!(a[0].resolution.x < 0);
    assert!(b[0].resolution.x > 0);
    assert_eq!(a[0].resolution.x, -5 * UNIT);
    assert_eq!(a[0].resolution.y, 0);
    assert_eq!(b[0].resolution.y, 0);
    let mut w = World::from_bodies(bodies);
    w.step(screen(), 0);
    assert_eq!(w.bodies[0].velocity, Velocity::new(-SPEED, 50));
    assert_eq!(w.bodies[1].velocity, Velocity::new(SPEED, 50));
}

#[test]
fn resolutions_are_opposite() {
    let pairs = [(100, 100, 103, 108), (50, 50, 45, 52), (10, 10, 17, 3), (200, 200, 200, 191)];
    for (ax, ay, bx, by) in pairs {
        let a = Point::new(ax * UNIT, ay * UNIT);
        let b = Point::new(bx * UNIT, by * UNIT);
        let r = resolve(a, b).unwrap();
        let s = resolve(b, a).unwrap();
        assert_eq!(r.x, -s.x);
        assert_eq!(r.y, -s.y);
        assert!(r.x != 0 || r.y != 0);
    }
}

#[test]
fn resolution_along_least_penetration() {
    let a = Point::new(100 * UNIT, 100 * UNIT);
    let b = Point::new(102 * UNIT, 107 * UNIT);
    assert_eq!(resolve(a, b), Some(Resolution { x: 0, y: -3 * UNIT }));
    let c = Point::new(104 * UNIT, 96 * UNIT);
    assert_eq!(resolve(a, c), Some(Resolution { x: -6 * UNIT, y: 0 }));
}

#[test]
fn touching_boxes_do_not_collide() {
    let a = Point::new(100 * UNIT, 100 * UNIT);
    assert_eq!(resolve(a, Point::new(100 * UNIT + SIDE, 100 * UNIT)), None);
    assert_eq!(resolve(a, Point::new(100 * UNIT, 100 * UNIT - SIDE)), None);
    assert_eq!(resolve(a, Point::new(100 * UNIT + SIDE - 1, 100 * UNIT)), Some(Resolution { x: -1, y: 0 }));
}

#[test]
fn coincident_centers_give_no_push() {
    let a = Point::new(100 * UNIT, 100 * UNIT);
    assert_eq!(resolve(a, a), Some(Resolution { x: 0, y: 0 }));
    let bodies = vec![body(100, 100, 50, -50), body(100, 100, -50, 50)];
    let r = update_body(&bodies, 0, screen(), 0);
    assert_eq!(r.velocity, Velocity::new(50, -50));
}

#[test]
fn last_contact_decides_each_axis() {
    // Body 0 is pushed right by body 1, then left by body 2.
    let bodies = vec![body(100, 100, 50, 50), body(96, 100, 50, 50), body(103, 101, 50, 50)];
    let cs = query_collisions(&bodies, 0);
    assert_eq!(
        cs,
        vec![
            Contact { other: 1, resolution: Resolution { x: 6 * UNIT, y: 0 } },
            Contact { other: 2, resolution: Resolution { x: -7 * UNIT, y: 0 } },
        ]
    );
    assert_eq!(update_body(&bodies, 0, screen(), 0).velocity, Velocity::new(-50, 50));
}

#[test]
fn boundary_overrides_contacts() {
    let bodies = vec![body(-2, 100, -50, 50), body(3, 100, -50, 50)];
    let r = update_body(&bodies, 0, screen(), 0);
    assert_eq!(r.velocity, Velocity::new(50, 50));
}

#[test]
fn speeds_stay_full_over_many_frames() {
    let mut w = World::create(200, Bounds::new(100 * UNIT, 80 * UNIT), SPEED);
    for _ in 0..50 {
        w.step(Bounds::new(100 * UNIT, 80 * UNIT), 50_000);
        for b in &w.bodies {
            assert!(b.velocity.x == SPEED || b.velocity.x == -SPEED);
            assert!(b.velocity.y == SPEED || b.velocity.y == -SPEED);
        }
    }
}

#[test]
fn create_places_bodies_inside() {
    let w = World::create(1000, Bounds::new(3, 2), SPEED);
    assert_eq!(w.bodies.len(), 1000);
    for b in &w.bodies {
        assert!(0 <= b.center.x && b.center.x < 3);
        assert!(0 <= b.center.y && b.center.y < 2);
        assert_eq!(b.velocity, Velocity::new(SPEED, SPEED));
    }
    assert!(World::create(0, screen(), SPEED).bodies.is_empty());
}

#[test]
fn centers_in_order() {
    let w = World::from_bodies(vec![body(1, 2, 50, 50), body(3, 4, -50, -50)]);
    assert_eq!(w.centers(), vec![Point::new(UNIT, 2 * UNIT), Point::new(3 * UNIT, 4 * UNIT)]);
}
