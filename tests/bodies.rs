use asteroids::asteroid::{Asteroid, Size};
use asteroids::geometry::{Screen, Vec2};
use asteroids::missile::Missile;
use asteroids::spaceship::{thrust_vector, Spaceship};
use asteroids::stellarobject::StellarObject;

#[test]
fn sizes_and_tiers() {
    assert_eq!(Size::Large.scale(), 100_000);
    assert_eq!(Size::Medium.scale(), 70_000);
    assert_eq!(Size::Small.scale(), 40_000);
    assert_eq!(Size::Large.next(), Some(Size::Medium));
    assert_eq!(Size::Medium.next(), Some(Size::Small));
    assert_eq!(Size::Small.next(), None);
}

#[test]
fn split_gives_symmetric_fragments() {
    let a = Asteroid::new_with_size(Size::Large, Vec2::units(10, 20), Vec2::new(1_000, -500));
    let (f1, f2) = a.split_with_variation(Vec2::new(300, -700)).unwrap();
    assert_eq!(f1.size, Size::Medium);
    assert_eq!(f2.size, Size::Medium);
    assert_eq!(f1.position, a.position);
    assert_eq!(f2.position, a.position);
    assert_eq!(f1.speed, Vec2::new(1_300, -1_200));
    assert_eq!(f2.speed, Vec2::new(700, 200));
    assert!(f1.active && f2.active);

    let m = Asteroid::new_with_size(Size::Medium, Vec2::units(1, 1), Vec2::new(0, 0));
    let (g1, g2) = m.split_with_variation(Vec2::new(5, 5)).unwrap();
    assert_eq!(g1.size, Size::Small);
    assert_eq!(g2.size, Size::Small);

    let s = Asteroid::new_with_size(Size::Small, Vec2::units(1, 1), Vec2::new(0, 0));
    assert!(s.split_with_variation(Vec2::new(5, 5)).is_none());
}

#[test]
fn random_split_stays_within_one_unit() {
    let a = Asteroid::new_with_size(Size::Large, Vec2::units(10, 20), Vec2::new(1_000, -500));
    for _ in 0..50 {
        let (f1, f2) = a.split().unwrap();
        assert_eq!(f1.speed.x + f2.speed.x, 2 * a.speed.x);
        assert_eq!(f1.speed.y + f2.speed.y, 2 * a.speed.y);
        assert!((f1.speed.x - a.speed.x).abs() <= 1_000);
        assert!((f1.speed.y - a.speed.y).abs() <= 1_000);
    }
    assert!(Asteroid::new_with_size(Size::Small, a.position, a.speed).split().is_none());
}

#[test]
fn spawned_asteroids_stand_near_a_corner() {
    let screen = Screen::from_units(800, 600);
    for _ in 0..50 {
        let a = Asteroid::new(screen, Vec2::new(1_000, 0));
        let d = a.size.scale() as i64;
        let near = |p: i64, extent: i64| (d / 2 <= p && p <= d) || (extent - d <= p && p <= extent - d / 2);
        assert!(near(a.position.x, screen.width));
        assert!(near(a.position.y, screen.height));
        assert_eq!(a.speed, Vec2::new(1_000, 0));
        assert!(a.active);
    }
}

#[test]
fn asteroid_moves_and_wraps() {
    let screen = Screen::from_units(800, 600);
    let mut a = Asteroid::new_with_size(Size::Small, Vec2::units(799, 300), Vec2::units(3, -1));
    a.move_obj(screen);
    assert_eq!(a.position, Vec2::units(2, 299));
    assert_eq!(a.radius(), 20_000);
    a.handle_collision();
    assert!(!a.active);
}

#[test]
fn missile_flies_straight() {
    let screen = Screen::from_units(800, 600);
    let mut m = Missile::new(Vec2::units(100, 100), Vec2::new(1_000, 0));
    assert_eq!(m.velocity, Vec2::units(4, 0));
    assert_eq!(m.radius(), 2_000);
    for _ in 0..10 {
        m.move_obj(screen);
    }
    assert_eq!(m.position, Vec2::units(140, 100));
    assert!(m.active);
}

#[test]
fn missile_is_lost_off_screen() {
    let screen = Screen::from_units(800, 600);
    let mut m = Missile::new(Vec2::units(798, 100), Vec2::new(1_000, 0));
    m.move_obj(screen);
    assert!(!m.active);
    assert_eq!(m.position, Vec2::units(802, 100));
    let mut n = Missile::new(Vec2::units(1, 1), Vec2::new(0, -1_000));
    n.move_obj(screen);
    assert!(!n.active);
    let mut o = Missile::new(Vec2::units(1, 1), Vec2::new(0, 0));
    o.handle_collision();
    assert!(!o.active);
}

#[test]
fn ship_shield_state_machine() {
    let screen = Screen::from_units(800, 600);
    let mut s = Spaceship::new(screen);
    assert_eq!(s.position, Vec2::units(400, 300));
    assert!(s.shield && s.active && !s.invincible);
    s.handle_collision();
    assert!(!s.shield);
    assert!(s.invincible);
    assert_eq!(s.invincibility_timer, 2_000);
    assert!(s.hit);
    assert!(s.active);
    s.tick_invincibility(1_500);
    assert!(s.invincible && s.hit);
    assert_eq!(s.invincibility_timer, 500);
    s.tick_invincibility(500);
    assert!(!s.invincible);
    assert!(!s.hit);
    s.handle_collision();
    assert!(!s.active);
}

#[test]
fn ship_wave_grace_period() {
    let mut s = Spaceship::new(Screen::from_units(800, 600));
    s.handle_collision();
    s.restore_for_wave();
    assert!(s.shield && s.invincible && !s.hit);
    assert_eq!(s.invincibility_timer, 1_000);
}

#[test]
fn ship_thrust_rotation_and_deceleration() {
    let mut s = Spaceship::new(Screen::from_units(800, 600));
    s.rotate(50);
    s.rotate(-20);
    assert_eq!(s.rotation, 30);
    assert_eq!(thrust_vector(Vec2::new(1_000, 0), 10), Vec2::new(10, 0));
    assert_eq!(thrust_vector(Vec2::new(-707, 707), 10), Vec2::new(-7, 7));
    assert_eq!(thrust_vector(Vec2::new(-707, 707), -10), Vec2::new(7, -7));
    s.apply_thrust(Vec2::new(10, 0));
    s.apply_thrust(Vec2::new(10, 0));
    assert_eq!(s.velocity, Vec2::new(20, 0));
    s.velocity = Vec2::new(3_000, 4_000);
    s.decelerate();
    assert_eq!(s.velocity, Vec2::new(2_997, 3_996));
    s.velocity = Vec2::new(-3_000, -4_000);
    s.decelerate();
    assert_eq!(s.velocity, Vec2::new(-2_997, -3_996));
    s.velocity = Vec2::new(3, 4);
    s.decelerate();
    assert_eq!(s.velocity, Vec2::new(0, 0));
    s.decelerate();
    assert_eq!(s.velocity, Vec2::new(0, 0));
}
