//! The game session: motion and clean-up of every body, waves, the
//! player's controls, the tick of play and the screens around it.

use vstd::prelude::*;

use crate::asteroid::{is_variation, near_edge, Asteroid};
use crate::black_hole::BlackHole;
use crate::collision::{check_collision, collision_pass, collision_result, Field};
use crate::effects::{aged_texts, text_anchor, update_temporary_texts, Cue, TemporaryText, TextColor};
use crate::geometry::{clamp_i64, sum_clamped, Screen, Vec2, UNIT};
use crate::missile::{Missile, MISSILE_RADIUS, MISSILE_SPEED};
use crate::spaceship::{
    decelerated,
    fresh_ship,
    int_sqrt,
    invincibility_ticked,
    norm_sq,
    thrust_of,
    thrust_vector,
    Spaceship,
    WAVE_INVINCIBILITY_MS,
};
use crate::stellarobject::StellarObject;

verus! {

/// Turn per tick while a rotation key is held, in milliradians.
pub const ROTATION_STEP: i64 = 50;

/// Thrust per tick while a thrust key is held, in fixed-point steps.
pub const THRUST: i64 = 10;

/// Points for clearing a wave.
pub const WAVE_REWARD: i64 = 10;

/// Milliseconds the wave text stays on screen.
pub const WAVE_TEXT_MS: i64 = 1000;

/// Highest wave number a session reaches.
pub const MAX_WAVE: u32 = 1000000;

/// Which screen the game shows.
#[derive(Clone, Copy, Debug, PartialEq, Eq, Structural)]
pub enum GameState {
    StartScreen,
    Playing,
    GameOver,
}

/// The keys held (or, for `fire`, pressed) during a tick.
#[derive(Clone, Copy, Debug, PartialEq, Eq, Structural)]
pub struct Controls {
    pub rotate_right: bool,
    pub rotate_left: bool,
    pub thrust_forward: bool,
    pub thrust_backward: bool,
    pub fire: bool,
}

/// Number of asteroids in wave `wave`.
pub open spec fn wave_size(wave: int) -> int {
    5 + (wave - 1)
}

/// Number of asteroids in wave `wave`.
pub fn wave_size_of(wave: u32) -> (r: usize)
    requires
        1 <= wave <= MAX_WAVE,
    ensures
        r == wave_size(wave as int),
{
    5 + (wave as usize - 1)
}

/// The bodies of `s`, moved one tick.
pub open spec fn moved_all<T: StellarObject>(s: Seq<T>, screen: Screen) -> Seq<T> {
    s.map_values(|x: T| x.moved(screen))
}

/// The bodies of `s` still in play, in order.
pub open spec fn live<T: StellarObject>(s: Seq<T>) -> Seq<T> {
    s.filter(|x: T| x.active_spec())
}

/// Whether `s` is a fresh wave of `n` asteroids on `screen`: asteroid `k`
/// is live, moves with `headings[k]` and stands near a corner.
pub open spec fn is_wave_spawn(s: Seq<Asteroid>, headings: Seq<Vec2>, n: int, screen: Screen) -> bool {
    &&& s.len() == n
    &&& forall|k: int|
        0 <= k < n ==> {
            let a = #[trigger] s[k];
            &&& a.active
            &&& a.speed == headings[k]
            &&& near_edge(a.position.x as int, a.size.diameter() as int, screen.width as int)
            &&& near_edge(a.position.y as int, a.size.diameter() as int, screen.height as int)
        }
}

/// Moves every body of `v` one tick.
pub fn move_all<T: StellarObject>(v: &mut Vec<T>, screen: Screen)
    requires
        screen.wf(),
    ensures
        final(v)@ == moved_all(old(v)@, screen),
{
    let ghost v0 = v@;
    let mut i: usize = 0;
    while i < v.len()
        invariant
            screen.wf(),
            0 <= i <= v0.len(),
            v@.len() == v0.len(),
            forall|k: int| 0 <= k < i ==> v@[k] == v0[k].moved(screen),
            forall|k: int| i <= k < v0.len() ==> v@[k] == v0[k],
        decreases v0.len() - i,
    {
        v[i].move_obj(screen);
        i += 1;
    }
    proof {
        assert(v@ =~= moved_all(v0, screen));
    }
}

/// Drops the bodies of `v` that are out of play, keeping the order.
pub fn retain_active<T: StellarObject + Copy>(v: &mut Vec<T>)
    ensures
        final(v)@ == live(old(v)@),
{
    let ghost v0 = v@;
    let mut kept: Vec<T> = Vec::new();
    let mut i: usize = 0;
    while i < v.len()
        invariant
            0 <= i <= v0.len(),
            v@ == v0,
            kept@ == live(v0.subrange(0, i as int)),
        decreases v0.len() - i,
    {
        let x = v[i];
        if x.is_active() {
            kept.push(x);
        }
        proof {
            let s = v0.subrange(0, i + 1);
            assert(s.drop_last() =~= v0.subrange(0, i as int));
            reveal(Seq::filter);
        }
        i += 1;
    }
    proof {
        assert(v0.subrange(0, v0.len() as int) =~= v0);
    }
    *v = kept;
}

/// One tick of motion, then clean-up: asteroids move and the destroyed
/// ones go, spent black holes go, the ship moves, missiles move and the
/// lost ones go.
pub fn update_model(
    spaceship: &mut Spaceship,
    asteroids: &mut Vec<Asteroid>,
    missiles: &mut Vec<Missile>,
    black_holes: &mut Vec<BlackHole>,
    screen: Screen,
)
    requires
        screen.wf(),
    ensures
        final(asteroids)@ == live(moved_all(old(asteroids)@, screen)),
        final(black_holes)@ == live(old(black_holes)@),
        *final(spaceship) == old(spaceship).moved(screen),
        final(missiles)@ == live(moved_all(old(missiles)@, screen)),
{
    move_all(asteroids, screen);
    retain_active(asteroids);
    retain_active(black_holes);
    spaceship.move_obj(screen);
    move_all(missiles, screen);
    retain_active(missiles);
}

/// Adds the asteroids of wave `wave`, `wave_size(wave)` of them, the one
/// at index `k` moving with `headings[k]`.
pub fn start_new_wave(asteroids: &mut Vec<Asteroid>, wave: u32, screen: Screen, headings: &Vec<Vec2>)
    requires
        screen.wf(),
        1 <= wave <= MAX_WAVE,
        headings@.len() == wave_size(wave as int),
    ensures
        final(asteroids)@.subrange(0, old(asteroids)@.len() as int) == old(asteroids)@,
        is_wave_spawn(
            final(asteroids)@.subrange(old(asteroids)@.len() as int, final(asteroids)@.len() as int),
            headings@,
            wave_size(wave as int),
            screen,
        ),
{
    let ghost a0 = asteroids@;
    let num_asteroids = wave_size_of(wave);
    let mut k: usize = 0;
    while k < num_asteroids
        invariant
            screen.wf(),
            num_asteroids == wave_size(wave as int),
            headings@.len() == num_asteroids,
            0 <= k <= num_asteroids,
            asteroids@.len() == a0.len() + k,
            asteroids@.subrange(0, a0.len() as int) == a0,
            is_wave_spawn(asteroids@.subrange(a0.len() as int, asteroids@.len() as int), headings@, k as int, screen),
        decreases num_asteroids - k,
    {
        let ghost before = asteroids@;
        asteroids.push(Asteroid::new(screen, headings[k]));
        proof {
            assert(asteroids@.subrange(0, a0.len() as int) =~= before.subrange(0, a0.len() as int));
            let s = asteroids@.subrange(a0.len() as int, asteroids@.len() as int);
            let t = before.subrange(a0.len() as int, before.len() as int);
            assert forall|j: int| 0 <= j < k implies #[trigger] s[j] == t[j] by {}
        }
        k += 1;
    }
}

/// The missile fired from `p` along `heading`.
pub open spec fn fired(p: Vec2, heading: Vec2) -> Missile {
    Missile {
        position: p,
        velocity: Vec2 { x: (heading.x * MISSILE_SPEED) as i64, y: (heading.y * MISSILE_SPEED) as i64 },
        active: true,
        radius: MISSILE_RADIUS,
    }
}

/// The ship's rotation after the turn keys of `c`.
pub open spec fn steered(s: Spaceship, c: Controls) -> Spaceship {
    let r1 = if c.rotate_right { clamp_i64(s.rotation + ROTATION_STEP) } else { s.rotation };
    let r2 = if c.rotate_left { clamp_i64(r1 - ROTATION_STEP) } else { r1 };
    Spaceship { rotation: r2, ..s }
}

/// The field after the thrust and fire keys of `c`, the ship facing
/// `heading`: each thrust key adds thrust (backward brakes); with neither
/// held the ship slows down; firing adds a missile at the ship and a cue.
pub open spec fn input_result(f: Field, c: Controls, heading: Vec2) -> Field {
    let s0 = f.ship;
    let s1 = if c.thrust_forward {
        Spaceship { velocity: sum_clamped(s0.velocity, thrust_of(heading, THRUST as int)), ..s0 }
    } else {
        s0
    };
    let s2 = if c.thrust_backward {
        Spaceship { velocity: sum_clamped(s1.velocity, thrust_of(heading, -THRUST)), ..s1 }
    } else {
        s1
    };
    let s3 = if !c.thrust_forward && !c.thrust_backward {
        Spaceship { velocity: decelerated(s2.velocity, int_sqrt(norm_sq(s2.velocity))), ..s2 }
    } else {
        s2
    };
    if c.fire {
        Field {
            ship: s3,
            missiles: f.missiles.push(fired(s3.position, heading)),
            cues: f.cues.push(Cue::MissileFired),
            ..f
        }
    } else {
        Field { ship: s3, ..f }
    }
}

/// The field after the wave check: with no asteroid left, the wave is
/// cleared (a gold text, the reward, the ship's grace period, a cue) and
/// `spawned` arrives.
pub open spec fn wave_result(f: Field, spawned: Seq<Asteroid>) -> Field {
    if f.asteroids.len() == 0 {
        Field {
            texts: f.texts.push(
                TemporaryText {
                    points: WAVE_REWARD,
                    position: text_anchor(f.ship.position),
                    color: TextColor::Gold,
                    lifetime: WAVE_TEXT_MS,
                },
            ),
            score: clamp_i64(f.score + WAVE_REWARD),
            ship: Spaceship {
                shield: true,
                invincible: true,
                invincibility_timer: WAVE_INVINCIBILITY_MS,
                hit: false,
                ..f.ship
            },
            cues: f.cues.push(Cue::NewWave),
            asteroids: spawned,
            ..f
        }
    } else {
        f
    }
}

/// The field after motion, clean-up and `elapsed_ms` of time.
pub open spec fn model_result(f: Field, screen: Screen, elapsed_ms: i64) -> Field {
    Field {
        asteroids: live(moved_all(f.asteroids, screen)),
        black_holes: live(f.black_holes),
        ship: invincibility_ticked(f.ship.moved(screen), elapsed_ms),
        missiles: live(moved_all(f.missiles, screen)),
        texts: aged_texts(f.texts, elapsed_ms),
        ..f
    }
}

/// The session: the screen shown, the bodies, the score, the wave and the
/// latches that keep the start and game-over cues to one each.
pub struct GameSession {
    pub screen: Screen,
    pub state: GameState,
    pub spaceship: Spaceship,
    pub asteroids: Vec<Asteroid>,
    pub missiles: Vec<Missile>,
    pub black_holes: Vec<BlackHole>,
    pub temporary_texts: Vec<TemporaryText>,
    pub score: i64,
    pub wave: u32,
    pub start_cue_played: bool,
    pub game_over_cue_played: bool,
}

impl GameSession {
    pub open spec fn wf(&self) -> bool {
        &&& self.screen.wf()
        &&& 1 <= self.wave <= MAX_WAVE
    }

    /// The session's values as a field, with `cues` to play.
    pub open spec fn field(&self, cues: Seq<Cue>) -> Field {
        Field {
            ship: self.spaceship,
            asteroids: self.asteroids@,
            missiles: self.missiles@,
            black_holes: self.black_holes@,
            score: self.score,
            texts: self.temporary_texts@,
            cues,
        }
    }

    /// A session on the start screen, with a fresh ship, score zero and the
    /// first wave in place (asteroid `k` moving with `headings[k]`).
    pub fn new(screen: Screen, headings: &Vec<Vec2>) -> (r: GameSession)
        requires
            screen.wf(),
            headings@.len() == wave_size(1),
        ensures
            r.wf(),
            r.screen == screen,
            r.state == GameState::StartScreen,
            r.spaceship == fresh_ship(screen),
            is_wave_spawn(r.asteroids@, headings@, wave_size(1), screen),
            r.missiles@.len() == 0,
            r.black_holes@.len() == 0,
            r.temporary_texts@.len() == 0,
            r.score == 0,
            r.wave == 1,
            !r.start_cue_played,
            !r.game_over_cue_played,
    {
        let mut asteroids: Vec<Asteroid> = Vec::new();
        start_new_wave(&mut asteroids, 1, screen, headings);
        proof {
            assert(asteroids@.subrange(0, asteroids@.len() as int) =~= asteroids@);
        }
        GameSession {
            screen,
            state: GameState::StartScreen,
            spaceship: Spaceship::new(screen),
            asteroids,
            missiles: Vec::new(),
            black_holes: Vec::new(),
            temporary_texts: Vec::new(),
            score: 0,
            wave: 1,
            start_cue_played: false,
            game_over_cue_played: false,
        }
    }

    /// The start action: from the start screen, play begins.
    pub fn start(&mut self)
        ensures
            final(self).state == if old(self).state == GameState::StartScreen {
                GameState::Playing
            } else {
                old(self).state
            },
            final(self).screen == old(self).screen,
            final(self).spaceship == old(self).spaceship,
            final(self).asteroids@ == old(self).asteroids@,
            final(self).missiles@ == old(self).missiles@,
            final(self).black_holes@ == old(self).black_holes@,
            final(self).temporary_texts@ == old(self).temporary_texts@,
            final(self).score == old(self).score,
            final(self).wave == old(self).wave,
            final(self).start_cue_played == old(self).start_cue_played,
            final(self).game_over_cue_played == old(self).game_over_cue_played,
    {
        if self.state == GameState::StartScreen {
            self.state = GameState::Playing;
        }
    }

    /// The restart action: from the game-over screen, play begins again
    /// with a fresh ship, no missile or black hole, score zero and the
    /// first wave (asteroid `k` moving with `headings[k]`); the start cue
    /// plays. On another screen nothing happens.
    pub fn restart(&mut self, headings: &Vec<Vec2>) -> (cues: Vec<Cue>)
        requires
            old(self).wf(),
            headings@.len() == wave_size(1),
        ensures
            final(self).wf(),
            final(self).screen == old(self).screen,
            old(self).state != GameState::GameOver ==> final(self).state == old(self).state
                && final(self).spaceship == old(self).spaceship && final(self).asteroids@
                == old(self).asteroids@ && final(self).missiles@ == old(self).missiles@
                && final(self).black_holes@ == old(self).black_holes@ && final(self).score
                == old(self).score && final(self).wave == old(self).wave
                && final(self).start_cue_played == old(self).start_cue_played
                && final(self).game_over_cue_played == old(self).game_over_cue_played
                && final(self).temporary_texts@ == old(self).temporary_texts@ && cues@.len() == 0,
            old(self).state == GameState::GameOver ==> {
                &&& final(self).state == GameState::Playing
                &&& final(self).spaceship == fresh_ship(old(self).screen)
                &&& is_wave_spawn(final(self).asteroids@, headings@, wave_size(1), old(self).screen)
                &&& final(self).missiles@.len() == 0
                &&& final(self).black_holes@.len() == 0
                &&& final(self).temporary_texts@ == old(self).temporary_texts@
                &&& final(self).score == 0
                &&& final(self).wave == 1
                &&& final(self).start_cue_played
                &&& !final(self).game_over_cue_played
                &&& cues@ == seq![Cue::StartGame]
            },
    {
        let mut cues: Vec<Cue> = Vec::new();
        if self.state == GameState::GameOver {
            self.state = GameState::Playing;
            self.start_cue_played = true;
            self.game_over_cue_played = false;
            cues.push(Cue::StartGame);
            self.spaceship = Spaceship::new(self.screen);
            self.asteroids = Vec::new();
            self.missiles = Vec::new();
            self.black_holes = Vec::new();
            self.wave = 1;
            self.score = 0;
            start_new_wave(&mut self.asteroids, 1, self.screen, headings);
            proof {
                assert(self.asteroids@.subrange(0, self.asteroids@.len() as int) =~= self.asteroids@);
            }
        }
        cues
    }

    /// The turn keys: right turns by `ROTATION_STEP`, left turns back.
    pub fn steer(&mut self, controls: Controls)
        ensures
            final(self).spaceship == steered(old(self).spaceship, controls),
            final(self).screen == old(self).screen,
            final(self).state == old(self).state,
            final(self).asteroids@ == old(self).asteroids@,
            final(self).missiles@ == old(self).missiles@,
            final(self).black_holes@ == old(self).black_holes@,
            final(self).temporary_texts@ == old(self).temporary_texts@,
            final(self).score == old(self).score,
            final(self).wave == old(self).wave,
            final(self).start_cue_played == old(self).start_cue_played,
            final(self).game_over_cue_played == old(self).game_over_cue_played,
    {
        if controls.rotate_right {
            self.spaceship.rotate(ROTATION_STEP);
        }
        if controls.rotate_left {
            self.spaceship.rotate(-ROTATION_STEP);
        }
    }
}

/// The thrust and fire keys, the ship facing `heading` (a unit vector
/// `UNIT` steps long), as `input_result` states; a fired missile is added
/// with its cue.
pub fn handle_input(
    spaceship: &mut Spaceship,
    missiles: &mut Vec<Missile>,
    cues: &mut Vec<Cue>,
    controls: Controls,
    heading: Vec2,
)
    requires
        -UNIT <= heading.x <= UNIT,
        -UNIT <= heading.y <= UNIT,
    ensures
        ({
            let f = Field {
                ship: *old(spaceship),
                asteroids: Seq::empty(),
                missiles: old(missiles)@,
                black_holes: Seq::empty(),
                score: 0,
                texts: Seq::empty(),
                cues: old(cues)@,
            };
            let g = input_result(f, controls, heading);
            *final(spaceship) == g.ship && final(missiles)@ == g.missiles && final(cues)@ == g.cues
        }),
{
    if controls.thrust_forward {
        spaceship.apply_thrust(thrust_vector(heading, THRUST));
    }
    if controls.thrust_backward {
        spaceship.apply_thrust(thrust_vector(heading, -THRUST));
    }
    if !controls.thrust_forward && !controls.thrust_backward {
        spaceship.decelerate();
    }
    if controls.fire {
        missiles.push(Missile::new(spaceship.position, heading));
        cues.push(Cue::MissileFired);
    }
}

/// One tick of play from session `s`, as a field, and whether the ship
/// was destroyed: the start cue if it has not played yet, the controls
/// (the ship facing `heading`), the collision pass (asteroid `i` splitting
/// with `deltas[i]`), the game-over cue if the ship was destroyed and that
/// cue has not played yet, the wave check (a new wave being `spawned`),
/// then motion, clean-up and `elapsed_ms` of time.
pub open spec fn tick_result(
    s: GameSession,
    c: Controls,
    heading: Vec2,
    elapsed_ms: i64,
    deltas: Seq<Vec2>,
    spawned: Seq<Asteroid>,
) -> (Field, bool) {
    let f0 = s.field(if s.start_cue_played { Seq::empty() } else { seq![Cue::StartGame] });
    let f1 = input_result(f0, c, heading);
    let (f2, over) = collision_result(f1, deltas);
    let f2b = if over && !s.game_over_cue_played { Field { cues: f2.cues.push(Cue::GameOver), ..f2 } } else { f2 };
    let f3 = wave_result(f2b, spawned);
    (model_result(f3, s.screen, elapsed_ms), over)
}

/// The asteroids left after the collision pass of the tick of `tick_result`.
pub open spec fn asteroids_after_collisions(s: GameSession, c: Controls, heading: Vec2, deltas: Seq<Vec2>) -> Seq<
    Asteroid,
> {
    let f0 = s.field(if s.start_cue_played { Seq::empty() } else { seq![Cue::StartGame] });
    collision_result(input_result(f0, c, heading), deltas).0.asteroids
}

impl GameSession {
    /// The wave-clear sequence, with no asteroid left: a gold text, the
    /// reward, the wave number up by one, the ship's grace period, the
    /// new-wave cue and `wave_size(wave)` new asteroids (the one at index
    /// `k` moving with `headings[k]`).
    pub fn clear_wave(&mut self, cues: &mut Vec<Cue>, headings: &Vec<Vec2>)
        requires
            old(self).wf(),
            old(self).wave < MAX_WAVE,
            old(self).asteroids@.len() == 0,
            headings@.len() == wave_size(old(self).wave as int),
        ensures
            final(self).wf(),
            final(self).wave == old(self).wave + 1,
            final(self).score == clamp_i64(old(self).score + WAVE_REWARD),
            is_wave_spawn(final(self).asteroids@, headings@, wave_size(old(self).wave as int), old(self).screen),
            final(self).field(final(cues)@) == wave_result(old(self).field(old(cues)@), final(self).asteroids@),
            final(self).screen == old(self).screen,
            final(self).state == old(self).state,
            final(self).start_cue_played == old(self).start_cue_played,
            final(self).game_over_cue_played == old(self).game_over_cue_played,
    {
        self.temporary_texts.push(
            TemporaryText::anchored(WAVE_REWARD, self.spaceship.position, TextColor::Gold, WAVE_TEXT_MS),
        );
        self.score = crate::geometry::clamp_to_i64(self.score as i128 + WAVE_REWARD as i128);
        self.spaceship.restore_for_wave();
        cues.push(Cue::NewWave);
        start_new_wave(&mut self.asteroids, self.wave, self.screen, headings);
        self.wave = self.wave + 1;
        proof {
            assert(self.asteroids@.subrange(0, self.asteroids@.len() as int) =~= self.asteroids@);
        }
    }

    /// One tick of play, as `tick_result` states, for some split
    /// variations within one unit and, when the wave is cleared, some new
    /// wave of `wave_size(wave)` asteroids moving with `wave_headings`.
    /// Returns the cues to play. Off the playing screen nothing happens.
    pub fn play_tick(&mut self, controls: Controls, heading: Vec2, elapsed_ms: i64, wave_headings: &Vec<Vec2>) -> (cues:
        Vec<Cue>)
        requires
            old(self).wf(),
            old(self).wave < MAX_WAVE,
            -UNIT <= heading.x <= UNIT,
            -UNIT <= heading.y <= UNIT,
            wave_headings@.len() == wave_size(old(self).wave as int),
        ensures
            final(self).wf(),
            final(self).screen == old(self).screen,
            old(self).state != GameState::Playing ==> final(self).field(cues@) == old(self).field(Seq::empty())
                && final(self).state == old(self).state && final(self).wave == old(self).wave
                && final(self).start_cue_played == old(self).start_cue_played
                && final(self).game_over_cue_played == old(self).game_over_cue_played,
            old(self).state == GameState::Playing ==> exists|deltas: Seq<Vec2>, spawned: Seq<Asteroid>|
                #![trigger tick_result(*old(self), controls, heading, elapsed_ms, deltas, spawned)]
                {
                    let (f, over) = tick_result(*old(self), controls, heading, elapsed_ms, deltas, spawned);
                    let cleared = asteroids_after_collisions(*old(self), controls, heading, deltas).len() == 0;
                    &&& forall|k: int| 0 <= k < deltas.len() ==> is_variation(#[trigger] deltas[k])
                    &&& cleared ==> is_wave_spawn(
                        spawned,
                        wave_headings@,
                        wave_size(old(self).wave as int),
                        old(self).screen,
                    )
                    &&& final(self).field(cues@) == f
                    &&& final(self).state == if over { GameState::GameOver } else { GameState::Playing }
                    &&& final(self).start_cue_played
                    &&& final(self).game_over_cue_played == (old(self).game_over_cue_played || over)
                    &&& final(self).wave == if cleared { old(self).wave + 1 } else { old(self).wave as int }
                },
    {
        let mut cues: Vec<Cue> = Vec::new();
        if self.state != GameState::Playing {
            return cues;
        }
        let ghost s0 = *self;
        if !self.start_cue_played {
            cues.push(Cue::StartGame);
            self.start_cue_played = true;
        }
        proof {
            assert(cues@ =~= if s0.start_cue_played { Seq::empty() } else { seq![Cue::StartGame] });
        }
        handle_input(&mut self.spaceship, &mut self.missiles, &mut cues, controls, heading);
        let ghost f0 = s0.field(if s0.start_cue_played { Seq::empty() } else { seq![Cue::StartGame] });
        let ghost f1 = self.field(cues@);
        assert(f1 == input_result(f0, controls, heading));
        let over = check_collision(
            &mut self.spaceship,
            &mut self.asteroids,
            &mut self.missiles,
            &mut self.black_holes,
            &mut self.score,
            &mut self.temporary_texts,
            &mut cues,
        );
        let ghost f2 = self.field(cues@);
        let ghost deltas = choose|d: Seq<Vec2>|
            (forall|k: int| 0 <= k < d.len() ==> is_variation(#[trigger] d[k])) && collision_pass(
                f1.ship,
                f1.asteroids,
                f1.missiles,
                f1.black_holes,
                f1.score,
                f1.texts,
                f1.cues,
                d,
                f2.ship,
                f2.asteroids,
                f2.missiles,
                f2.black_holes,
                f2.score,
                f2.texts,
                f2.cues,
                over,
            );
        assert(collision_result(f1, deltas) == (f2, over));
        if over {
            self.state = GameState::GameOver;
            if !self.game_over_cue_played {
                cues.push(Cue::GameOver);
                self.game_over_cue_played = true;
            }
        }
        if self.asteroids.len() == 0 {
            self.clear_wave(&mut cues, wave_headings);
        }
        let ghost spawned = self.asteroids@;
        let ghost f3 = self.field(cues@);
        assert(f3 == wave_result(
            if over && !s0.game_over_cue_played { Field { cues: f2.cues.push(Cue::GameOver), ..f2 } } else { f2 },
            spawned,
        ));
        update_model(&mut self.spaceship, &mut self.asteroids, &mut self.missiles, &mut self.black_holes, self.screen);
        update_temporary_texts(&mut self.temporary_texts, elapsed_ms);
        self.spaceship.tick_invincibility(elapsed_ms);
        assert(self.field(cues@) == tick_result(s0, controls, heading, elapsed_ms, deltas, spawned).0);
        cues
    }
}

} // verus!
