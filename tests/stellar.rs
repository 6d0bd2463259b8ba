use asteroids::black_hole::BlackHole;
use asteroids::geometry::{Screen, Vec2};
use asteroids::spaceship::Spaceship;
use asteroids::stellarobject::{check_collision_between, StellarObject};

fn big_screen() -> Screen {
    Screen::from_units(1000, 1000)
}

#[test]
fn test_check_collision() {
    let mut obj1 = BlackHole::new(Vec2::units(50, 100), 40_000);
    let mut obj2 = BlackHole::new(Vec2::units(20, 70), 60_000);
    assert_eq!(obj1.radius(), 20_000);
    assert_eq!(obj2.radius(), 30_000);

    let expected_collision = check_collision_between(&mut obj1, &mut obj2);

    assert!(expected_collision, "Il n'y a pas de collision !");
}

#[test]
fn test_get_position() {
    let obj = BlackHole::new(Vec2::units(50, 100), 60_000);

    let expected_position = Vec2::units(50, 100);

    assert_eq!(obj.get_pos(), expected_position, "La position retournée par get_pos() est incorrecte !");
}

#[test]
fn test_move_object() {
    let mut obj = Spaceship::new(big_screen());
    obj.position = Vec2::units(50, 100);
    obj.velocity = Vec2::units(10, 10);

    let initial_position = obj.get_pos();

    obj.move_obj(big_screen());

    let new_position = obj.get_pos();

    assert_eq!(
        new_position,
        Vec2::new(initial_position.x + 10_000, initial_position.y + 10_000),
        "L'objet n'a pas été déplacé correctement !"
    );
    assert_eq!(new_position, Vec2::units(60, 110));
}

#[test]
fn collision_handlers_fire_on_both_bodies() {
    let mut a = BlackHole::new(Vec2::units(0, 0), 10_000);
    let mut b = BlackHole::new(Vec2::units(3, 4), 10_000);
    assert!(check_collision_between(&mut a, &mut b));
    assert_eq!(a.counter, 1);
    assert_eq!(b.counter, 1);
}

#[test]
fn touching_circles_do_not_collide() {
    // Distance 5 units, radii 2 and 3 units: equality is no collision.
    let mut a = BlackHole::new(Vec2::units(0, 0), 4_000);
    let mut b = BlackHole::new(Vec2::units(3, 4), 6_000);
    assert!(!check_collision_between(&mut a, &mut b));
    assert_eq!(a.counter, 0);
    assert_eq!(b.counter, 0);
    // One step closer and they overlap.
    let mut c = BlackHole::new(Vec2::new(2_999, 4_000), 6_000);
    assert!(check_collision_between(&mut a, &mut c));
}

#[test]
fn black_hole_absorbs_five_hits() {
    let mut b = BlackHole::new(Vec2::units(10, 10), 100_000);
    for _ in 0..4 {
        b.handle_collision();
    }
    assert!(b.active);
    assert_eq!(b.counter, 4);
    b.handle_collision();
    assert!(!b.active);
    assert_eq!(b.counter, 5);
    b.handle_collision();
    assert!(!b.active);
    assert_eq!(b.counter, 5);
}
