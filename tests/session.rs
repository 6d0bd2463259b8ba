use asteroids::asteroid::{Asteroid, Size};
use asteroids::black_hole::BlackHole;
use asteroids::collision::{check_collision, resolve_collisions};
use asteroids::effects::{update_temporary_texts, Cue, TemporaryText, TextColor};
use asteroids::game::{handle_input, update_model, Controls, GameSession, GameState};
use asteroids::geometry::{Screen, Vec2};
use asteroids::missile::Missile;
use asteroids::spaceship::Spaceship;

fn screen() -> Screen {
    Screen::from_units(800, 600)
}

fn headings(n: usize) -> Vec<Vec2> {
    (0..n).map(|_| Vec2::new(1_000, 0)).collect()
}

fn no_keys() -> Controls {
    Controls { rotate_right: false, rotate_left: false, thrust_forward: false, thrust_backward: false, fire: false }
}

struct World {
    ship: Spaceship,
    asteroids: Vec<Asteroid>,
    missiles: Vec<Missile>,
    black_holes: Vec<BlackHole>,
    score: i64,
    texts: Vec<TemporaryText>,
    cues: Vec<Cue>,
}

fn world() -> World {
    let mut ship = Spaceship::new(screen());
    ship.position = Vec2::units(400, 300);
    World {
        ship,
        asteroids: Vec::new(),
        missiles: Vec::new(),
        black_holes: Vec::new(),
        score: 0,
        texts: Vec::new(),
        cues: Vec::new(),
    }
}

fn resolve(w: &mut World, variations: &Vec<Vec2>) -> bool {
    resolve_collisions(
        &mut w.ship,
        &mut w.asteroids,
        &mut w.missiles,
        &mut w.black_holes,
        &mut w.score,
        &mut w.texts,
        &mut w.cues,
        variations,
    )
}

#[test]
fn missile_kills_asteroid_and_queues_fragments() {
    let mut w = world();
    w.asteroids.push(Asteroid::new_with_size(Size::Large, Vec2::units(100, 100), Vec2::units(1, 0)));
    w.missiles.push(Missile::new(Vec2::units(110, 100), Vec2::new(1_000, 0)));
    let over = resolve(&mut w, &vec![Vec2::new(200, 300)]);
    assert!(!over);
    assert_eq!(w.score, 1);
    assert_eq!(w.asteroids.len(), 3);
    assert!(!w.asteroids[0].active);
    assert_eq!(w.asteroids[1].size, Size::Medium);
    assert_eq!(w.asteroids[1].speed, Vec2::new(1_200, 300));
    assert_eq!(w.asteroids[2].speed, Vec2::new(800, -300));
    assert!(!w.missiles[0].active);
    assert_eq!(w.cues, vec![Cue::AsteroidDestroyed]);
    assert_eq!(
        w.texts,
        vec![TemporaryText::new(1, Vec2::units(120, 120), TextColor::Green, 400)]
    );
    update_model(&mut w.ship, &mut w.asteroids, &mut w.missiles, &mut w.black_holes, screen());
    assert_eq!(w.asteroids.len(), 2);
    assert!(w.missiles.is_empty());
}

#[test]
fn small_asteroid_leaves_no_fragment() {
    let mut w = world();
    w.asteroids.push(Asteroid::new_with_size(Size::Small, Vec2::units(100, 100), Vec2::units(1, 0)));
    w.missiles.push(Missile::new(Vec2::units(100, 100), Vec2::new(1_000, 0)));
    resolve(&mut w, &vec![Vec2::new(0, 0)]);
    assert_eq!(w.score, 1);
    assert_eq!(w.asteroids.len(), 1);
}

#[test]
fn last_missile_takes_the_asteroid() {
    let mut w = world();
    w.asteroids.push(Asteroid::new_with_size(Size::Small, Vec2::units(100, 100), Vec2::units(1, 0)));
    w.missiles.push(Missile::new(Vec2::units(100, 100), Vec2::new(1_000, 0)));
    w.missiles.push(Missile::new(Vec2::units(101, 100), Vec2::new(1_000, 0)));
    resolve(&mut w, &vec![Vec2::new(0, 0)]);
    assert!(w.missiles[0].active);
    assert!(!w.missiles[1].active);
    assert_eq!(w.score, 1);
}

#[test]
fn black_hole_fifth_hit_scores() {
    let mut w = world();
    let mut b = BlackHole::new(Vec2::units(100, 100), 100_000);
    b.counter = 4;
    w.black_holes.push(b);
    w.missiles.push(Missile::new(Vec2::units(100, 100), Vec2::new(1_000, 0)));
    let over = resolve(&mut w, &vec![]);
    assert!(!over);
    assert_eq!(w.score, 10);
    assert!(!w.black_holes[0].active);
    assert_eq!(w.texts, vec![TemporaryText::new(10, Vec2::units(120, 120), TextColor::Green, 400)]);
    update_model(&mut w.ship, &mut w.asteroids, &mut w.missiles, &mut w.black_holes, screen());
    assert!(w.black_holes.is_empty());
}

#[test]
fn black_hole_fourth_hit_does_not_score() {
    let mut w = world();
    let mut b = BlackHole::new(Vec2::units(100, 100), 100_000);
    b.counter = 3;
    w.black_holes.push(b);
    w.missiles.push(Missile::new(Vec2::units(100, 100), Vec2::new(1_000, 0)));
    resolve(&mut w, &vec![]);
    assert_eq!(w.score, 0);
    assert!(w.black_holes[0].active);
    assert_eq!(w.black_holes[0].counter, 4);
}

#[test]
fn asteroid_falls_into_black_hole() {
    let mut w = world();
    w.asteroids.push(Asteroid::new_with_size(Size::Medium, Vec2::units(100, 100), Vec2::units(1, 0)));
    w.black_holes.push(BlackHole::new(Vec2::units(120, 100), 100_000));
    resolve(&mut w, &vec![Vec2::new(0, 0)]);
    assert!(!w.asteroids[0].active);
    assert_eq!(w.black_holes[0].counter, 1);
    assert_eq!(w.cues, vec![Cue::AsteroidDestroyed]);
    assert_eq!(w.score, 0);
}

#[test]
fn shielded_ship_hit_by_asteroid() {
    let mut w = world();
    w.asteroids.push(Asteroid::new_with_size(Size::Large, Vec2::units(400, 310), Vec2::units(1, 0)));
    w.asteroids.push(Asteroid::new_with_size(Size::Large, Vec2::units(410, 300), Vec2::units(1, 0)));
    let over = resolve(&mut w, &vec![Vec2::new(0, 0), Vec2::new(0, 0)]);
    assert!(!over);
    assert_eq!(w.score, -5);
    assert!(!w.ship.shield && w.ship.invincible && w.ship.hit);
    assert_eq!(w.ship.invincibility_timer, 2_000);
    assert!(!w.asteroids[0].active);
    assert!(w.asteroids[1].active);
    assert_eq!(w.black_holes, vec![BlackHole::new(Vec2::units(400, 310), 100_000)]);
    assert_eq!(w.cues, vec![Cue::ShieldLost]);
    assert_eq!(w.texts, vec![TemporaryText::new(-5, Vec2::units(420, 320), TextColor::Red, 1_000)]);
}

#[test]
fn invincible_ship_skips_the_pass() {
    let mut w = world();
    w.ship.invincible = true;
    w.ship.shield = false;
    w.asteroids.push(Asteroid::new_with_size(Size::Large, Vec2::units(400, 300), Vec2::units(1, 0)));
    w.missiles.push(Missile::new(Vec2::units(400, 300), Vec2::new(1_000, 0)));
    let over = resolve(&mut w, &vec![Vec2::new(0, 0)]);
    assert!(!over);
    assert!(w.asteroids[0].active);
    assert!(w.missiles[0].active);
    assert!(w.ship.active);
    assert_eq!(w.score, 0);
    assert!(w.cues.is_empty());
}

#[test]
fn unshielded_ship_is_destroyed() {
    let mut w = world();
    w.ship.shield = false;
    w.asteroids.push(Asteroid::new_with_size(Size::Large, Vec2::units(400, 300), Vec2::units(1, 0)));
    assert!(resolve(&mut w, &vec![Vec2::new(0, 0)]));
    assert!(!w.ship.active);
    assert_eq!(w.score, 0);
    assert!(w.black_holes.is_empty());
}

#[test]
fn black_hole_destroys_ship() {
    let mut w = world();
    w.black_holes.push(BlackHole::new(Vec2::units(400, 300), 40_000));
    assert!(resolve(&mut w, &vec![]));
    assert_eq!(w.black_holes[0].counter, 1);
}

#[test]
fn random_pass_scores_like_the_fixed_one() {
    let mut w = world();
    w.asteroids.push(Asteroid::new_with_size(Size::Large, Vec2::units(100, 100), Vec2::units(1, 0)));
    w.missiles.push(Missile::new(Vec2::units(110, 100), Vec2::new(1_000, 0)));
    let over = check_collision(
        &mut w.ship,
        &mut w.asteroids,
        &mut w.missiles,
        &mut w.black_holes,
        &mut w.score,
        &mut w.texts,
        &mut w.cues,
    );
    assert!(!over);
    assert_eq!(w.score, 1);
    assert_eq!(w.asteroids.len(), 3);
    let (f1, f2) = (w.asteroids[1], w.asteroids[2]);
    assert_eq!(f1.speed.x + f2.speed.x, 2_000);
    assert_eq!(f1.speed.y + f2.speed.y, 0);
}

#[test]
fn texts_fade() {
    let mut texts = vec![
        TemporaryText::new(1, Vec2::units(0, 0), TextColor::Green, 400),
        TemporaryText::new(10, Vec2::units(0, 0), TextColor::Gold, 1_000),
    ];
    update_temporary_texts(&mut texts, 400);
    assert_eq!(texts, vec![TemporaryText::new(10, Vec2::units(0, 0), TextColor::Gold, 600)]);
}

#[test]
fn firing_adds_a_missile() {
    let mut ship = Spaceship::new(screen());
    let mut missiles = Vec::new();
    let mut cues = Vec::new();
    let c = Controls { fire: true, thrust_forward: true, ..no_keys() };
    handle_input(&mut ship, &mut missiles, &mut cues, c, Vec2::new(0, 1_000));
    assert_eq!(missiles.len(), 1);
    assert_eq!(missiles[0].velocity, Vec2::new(0, 4_000));
    assert_eq!(ship.velocity, Vec2::new(0, 10));
    assert_eq!(cues, vec![Cue::MissileFired]);
}

#[test]
fn wave_clear_rewards_and_spawns() {
    let mut s = GameSession::new(screen(), &headings(5));
    assert_eq!(s.asteroids.len(), 5);
    assert_eq!(s.wave, 1);
    s.asteroids.clear();
    let mut cues = Vec::new();
    s.clear_wave(&mut cues, &headings(5));
    assert_eq!(s.wave, 2);
    assert_eq!(s.score, 10);
    assert_eq!(s.asteroids.len(), 5);
    assert!(s.spaceship.shield && s.spaceship.invincible);
    assert_eq!(s.spaceship.invincibility_timer, 1_000);
    assert_eq!(cues, vec![Cue::NewWave]);
    s.asteroids.clear();
    s.clear_wave(&mut cues, &headings(6));
    assert_eq!(s.wave, 3);
    assert_eq!(s.score, 20);
    assert_eq!(s.asteroids.len(), 6);
}

#[test]
fn session_screens() {
    let mut s = GameSession::new(screen(), &headings(5));
    assert_eq!(s.state, GameState::StartScreen);
    let cues = s.play_tick(no_keys(), Vec2::new(1_000, 0), 16, &headings(5));
    assert!(cues.is_empty());
    s.start();
    assert_eq!(s.state, GameState::Playing);
    s.asteroids.clear();
    let cues = s.play_tick(no_keys(), Vec2::new(1_000, 0), 16, &headings(5));
    assert_eq!(cues, vec![Cue::StartGame, Cue::NewWave]);
    assert_eq!(s.wave, 2);
    assert_eq!(s.score, 10);
    let cues = s.play_tick(no_keys(), Vec2::new(1_000, 0), 16, &headings(6));
    assert!(!cues.contains(&Cue::StartGame));

    // Put a black hole on the ship once its grace period is over.
    s.spaceship.invincible = false;
    s.black_holes.push(BlackHole::new(s.spaceship.position, 40_000));
    let cues = s.play_tick(no_keys(), Vec2::new(1_000, 0), 16, &headings(6));
    assert_eq!(s.state, GameState::GameOver);
    assert!(cues.contains(&Cue::GameOver));

    let cues = s.restart(&headings(5));
    assert_eq!(cues, vec![Cue::StartGame]);
    assert_eq!(s.state, GameState::Playing);
    assert_eq!(s.wave, 1);
    assert_eq!(s.score, 0);
    assert_eq!(s.asteroids.len(), 5);
    assert!(s.black_holes.is_empty());
    assert!(s.missiles.is_empty());
}

#[test]
fn steering_turns_the_ship() {
    let mut s = GameSession::new(screen(), &headings(5));
    s.steer(Controls { rotate_right: true, ..no_keys() });
    assert_eq!(s.spaceship.rotation, 50);
    s.steer(Controls { rotate_left: true, ..no_keys() });
    s.steer(Controls { rotate_left: true, ..no_keys() });
    assert_eq!(s.spaceship.rotation, -50);
}
