use asteroids::geometry::{circles_collide, wrap_coord, wrap_step, Screen, Vec2};

#[test]
fn wrap_brings_coordinates_into_range() {
    assert_eq!(wrap_coord(-1, 10), 9);
    assert_eq!(wrap_coord(25, 10), 5);
    assert_eq!(wrap_coord(-25, 10), 5);
    assert_eq!(wrap_coord(0, 10), 0);
    assert_eq!(wrap_coord(10, 10), 0);
}

#[test]
fn wrap_is_idempotent() {
    for p in [-37i128, -10, -1, 0, 3, 9, 10, 11, 1234] {
        let once = wrap_coord(p, 10);
        assert!((0..10).contains(&once));
        assert_eq!(wrap_coord(once as i128, 10), once);
    }
}

#[test]
fn wrap_step_crosses_each_edge() {
    let screen = Screen::from_units(800, 600);
    assert_eq!(wrap_step(screen, Vec2::units(799, 599), Vec2::units(2, 2)), Vec2::units(1, 1));
    assert_eq!(wrap_step(screen, Vec2::units(0, 0), Vec2::units(-1, -1)), Vec2::units(799, 599));
}

#[test]
fn collision_scenario_from_the_field() {
    // Distance sqrt(900 + 900) = 42.43 units, radii 20 and 30 units.
    assert!(circles_collide(Vec2::units(50, 100), 20_000, Vec2::units(20, 70), 30_000));
    assert!(!circles_collide(Vec2::units(50, 100), 10_000, Vec2::units(20, 70), 30_000));
}

#[test]
fn collision_is_strict() {
    assert!(!circles_collide(Vec2::units(0, 0), 2_000, Vec2::units(3, 4), 3_000));
    assert!(circles_collide(Vec2::units(0, 0), 2_001, Vec2::units(3, 4), 3_000));
    assert!(!circles_collide(Vec2::new(i64::MIN, 0), u32::MAX, Vec2::new(i64::MAX, 0), u32::MAX));
}

#[test]
fn clamped_arithmetic() {
    let v = Vec2::new(i64::MAX - 1, 5).add_clamped(Vec2::new(10, 5));
    assert_eq!(v, Vec2::new(i64::MAX, 10));
    let w = Vec2::new(i64::MIN + 1, 5).sub_clamped(Vec2::new(10, 5));
    assert_eq!(w, Vec2::new(i64::MIN, 0));
}
