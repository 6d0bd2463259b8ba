//! The collision pass of a tick: every pairing of bodies, in a fixed order,
//! with its score, text, cue and fragment side effects.

use vstd::prelude::*;

use crate::asteroid::{is_variation, Asteroid};
use crate::black_hole::BlackHole;
use crate::effects::{cues_of, text_anchor, Cue, TemporaryText, TextColor};
use crate::geometry::{clamp_i64, clamp_to_i64, Vec2};
use crate::missile::Missile;
use crate::spaceship::Spaceship;
use crate::stellarobject::{check_collision_between, touching, StellarObject};

verus! {

// ---------------------------------------------------------------------
// Asteroids against black holes.

/// Number of the first `n` asteroids that touch black hole `b`.
pub open spec fn asteroids_touching(asts: Seq<Asteroid>, b: BlackHole, n: int) -> nat
    decreases n,
{
    if n <= 0 {
        0
    } else {
        asteroids_touching(asts, b, n - 1) + if touching(asts[n - 1], b) { 1nat } else { 0nat }
    }
}

/// Number of the first `n` black holes that asteroid `a` touches.
pub open spec fn black_holes_touching(a: Asteroid, bhs: Seq<BlackHole>, n: int) -> nat
    decreases n,
{
    if n <= 0 {
        0
    } else {
        black_holes_touching(a, bhs, n - 1) + if touching(a, bhs[n - 1]) { 1nat } else { 0nat }
    }
}

/// Number of touching pairs among the first `n` asteroids and all black
/// holes.
pub open spec fn asteroid_black_hole_pairs(asts: Seq<Asteroid>, bhs: Seq<BlackHole>, n: int) -> nat
    decreases n,
{
    if n <= 0 {
        0
    } else {
        asteroid_black_hole_pairs(asts, bhs, n - 1) + black_holes_touching(asts[n - 1], bhs, bhs.len() as int)
    }
}

/// An asteroid after the black holes: destroyed if it touches any.
pub open spec fn asteroid_after_black_holes(a: Asteroid, bhs: Seq<BlackHole>) -> Asteroid {
    if black_holes_touching(a, bhs, bhs.len() as int) > 0 {
        a.collided()
    } else {
        a
    }
}

/// The black holes after the asteroids: each has absorbed one hit per
/// asteroid that touches it.
pub open spec fn black_holes_after_asteroids(asts: Seq<Asteroid>, bhs: Seq<BlackHole>) -> Seq<BlackHole> {
    Seq::new(bhs.len(), |j: int| bhs[j].after_hits(asteroids_touching(asts, bhs[j], asts.len() as int)))
}

proof fn lemma_hits_keep_shape(b: BlackHole, n: nat)
    ensures
        b.after_hits(n).position == b.position,
        b.after_hits(n).size == b.size,
    decreases n,
{
    if n > 0 {
        lemma_hits_keep_shape(b, (n - 1) as nat);
    }
}

/// Every asteroid meets every black hole; each touching pair destroys the
/// asteroid, counts a hit on the black hole and plays a cue.
fn collide_asteroids_with_black_holes(
    asteroids: &mut Vec<Asteroid>,
    black_holes: &mut Vec<BlackHole>,
    cues: &mut Vec<Cue>,
)
    ensures
        final(asteroids)@ == old(asteroids)@.map_values(
            |a: Asteroid| asteroid_after_black_holes(a, old(black_holes)@),
        ),
        final(black_holes)@ == black_holes_after_asteroids(old(asteroids)@, old(black_holes)@),
        final(cues)@ == old(cues)@ + cues_of(
            Cue::AsteroidDestroyed,
            asteroid_black_hole_pairs(old(asteroids)@, old(black_holes)@, old(asteroids)@.len() as int),
        ),
{
    let ghost asts = asteroids@;
    let ghost bhs = black_holes@;
    let ghost cues0 = cues@;
    let mut i: usize = 0;
    while i < asteroids.len()
        invariant
            0 <= i <= asts.len(),
            asteroids@.len() == asts.len(),
            black_holes@.len() == bhs.len(),
            forall|k: int| 0 <= k < i ==> asteroids@[k] == asteroid_after_black_holes(asts[k], bhs),
            forall|k: int| i <= k < asts.len() ==> asteroids@[k] == asts[k],
            forall|j: int|
                0 <= j < bhs.len() ==> black_holes@[j] == bhs[j].after_hits(asteroids_touching(asts, bhs[j], i as int)),
            cues@ == cues0 + cues_of(Cue::AsteroidDestroyed, asteroid_black_hole_pairs(asts, bhs, i as int)),
        decreases asts.len() - i,
    {
        let mut j: usize = 0;
        while j < black_holes.len()
            invariant
                0 <= i < asts.len(),
                0 <= j <= bhs.len(),
                asteroids@.len() == asts.len(),
                black_holes@.len() == bhs.len(),
                forall|k: int| 0 <= k < i ==> asteroids@[k] == asteroid_after_black_holes(asts[k], bhs),
                forall|k: int| i < k < asts.len() ==> asteroids@[k] == asts[k],
                asteroids@[i as int] == if black_holes_touching(asts[i as int], bhs, j as int) > 0 {
                    asts[i as int].collided()
                } else {
                    asts[i as int]
                },
                forall|l: int|
                    0 <= l < j ==> black_holes@[l] == bhs[l].after_hits(
                        asteroids_touching(asts, bhs[l], i + 1),
                    ),
                forall|l: int|
                    j <= l < bhs.len() ==> black_holes@[l] == bhs[l].after_hits(
                        asteroids_touching(asts, bhs[l], i as int),
                    ),
                cues@ == cues0 + cues_of(
                    Cue::AsteroidDestroyed,
                    asteroid_black_hole_pairs(asts, bhs, i as int) + black_holes_touching(asts[i as int], bhs, j as int),
                ),
            decreases bhs.len() - j,
        {
            proof {
                lemma_hits_keep_shape(bhs[j as int], asteroids_touching(asts, bhs[j as int], i as int));
            }
            let ghost before = cues@;
            if check_collision_between(&mut asteroids[i], &mut black_holes[j]) {
                cues.push(Cue::AsteroidDestroyed);
                proof {
                    assert(cues@ =~= cues0 + cues_of(
                        Cue::AsteroidDestroyed,
                        asteroid_black_hole_pairs(asts, bhs, i as int) + black_holes_touching(asts[i as int], bhs, j + 1),
                    ));
                }
            }
            j += 1;
        }
        i += 1;
    }
    proof {
        assert(asteroids@ =~= asts.map_values(|a: Asteroid| asteroid_after_black_holes(a, bhs)));
        assert(black_holes@ =~= black_holes_after_asteroids(asts, bhs));
    }
}

// ---------------------------------------------------------------------
// Black holes against missiles.

/// Number of the first `n` bodies of `ys` that `x` touches.
pub open spec fn touch_count<A: StellarObject, B: StellarObject>(x: A, ys: Seq<B>, n: int) -> nat
    decreases n,
{
    if n <= 0 {
        0
    } else {
        touch_count(x, ys, n - 1) + if touching(x, ys[n - 1]) { 1nat } else { 0nat }
    }
}

/// Number of the bodies of `xs` at index `lo` or above that touch `y`.
pub open spec fn touch_count_from<A: StellarObject, B: StellarObject>(xs: Seq<A>, y: B, lo: int) -> nat
    decreases xs.len() - lo,
{
    if lo >= xs.len() || lo < 0 {
        0
    } else {
        touch_count_from(xs, y, lo + 1) + if touching(xs[lo], y) { 1nat } else { 0nat }
    }
}

/// A missile after the black holes: lost if it touches any.
pub open spec fn missile_after_black_holes(m: Missile, bhs: Seq<BlackHole>) -> Missile {
    if touch_count(m, bhs, bhs.len() as int) > 0 {
        m.collided()
    } else {
        m
    }
}

/// A black hole after the missiles: one hit per missile that touches it.
pub open spec fn black_hole_after_missiles(b: BlackHole, ms: Seq<Missile>) -> BlackHole {
    b.after_hits(touch_count_from(ms, b, 0))
}

/// Whether the missiles switch black hole `b` off.
pub open spec fn shot_down(b: BlackHole, ms: Seq<Missile>) -> bool {
    b.active && !black_hole_after_missiles(b, ms).active
}

/// The reward texts for the black holes among the first `n` that the
/// missiles switch off, in order.
pub open spec fn shot_down_texts(bhs: Seq<BlackHole>, ms: Seq<Missile>, n: int) -> Seq<TemporaryText>
    decreases n,
{
    if n <= 0 {
        Seq::empty()
    } else {
        let rest = shot_down_texts(bhs, ms, n - 1);
        if shot_down(bhs[n - 1], ms) {
            rest.push(
                TemporaryText {
                    points: BLACK_HOLE_REWARD,
                    position: text_anchor(bhs[n - 1].position),
                    color: TextColor::Green,
                    lifetime: SCORE_TEXT_MS,
                },
            )
        } else {
            rest
        }
    }
}

/// Points for switching a black hole off.
pub const BLACK_HOLE_REWARD: i64 = 10;

/// Milliseconds a reward text stays on screen.
pub const SCORE_TEXT_MS: i64 = 400;

/// Every black hole meets every missile (the missiles from last to first);
/// each touching pair loses the missile and counts a hit on the black
/// hole. A black hole that this switches off earns a reward text; the
/// number of those is returned.
fn collide_black_holes_with_missiles(
    black_holes: &mut Vec<BlackHole>,
    missiles: &mut Vec<Missile>,
    temporary_texts: &mut Vec<TemporaryText>,
) -> (shot: usize)
    ensures
        final(missiles)@ == old(missiles)@.map_values(|m: Missile| missile_after_black_holes(m, old(black_holes)@)),
        final(black_holes)@ == old(black_holes)@.map_values(|b: BlackHole| black_hole_after_missiles(b, old(missiles)@)),
        final(temporary_texts)@ == old(temporary_texts)@ + shot_down_texts(
            old(black_holes)@,
            old(missiles)@,
            old(black_holes)@.len() as int,
        ),
        shot == shot_down_texts(old(black_holes)@, old(missiles)@, old(black_holes)@.len() as int).len(),
{
    let ghost bhs = black_holes@;
    let ghost ms = missiles@;
    let ghost texts0 = temporary_texts@;
    let mut shot: usize = 0;
    let mut j: usize = 0;
    while j < black_holes.len()
        invariant
            0 <= j <= bhs.len(),
            black_holes@.len() == bhs.len(),
            missiles@.len() == ms.len(),
            forall|l: int| 0 <= l < j ==> black_holes@[l] == black_hole_after_missiles(bhs[l], ms),
            forall|l: int| j <= l < bhs.len() ==> black_holes@[l] == bhs[l],
            forall|k: int|
                0 <= k < ms.len() ==> missiles@[k] == if touch_count(ms[k], bhs, j as int) > 0 {
                    ms[k].collided()
                } else {
                    ms[k]
                },
            temporary_texts@ == texts0 + shot_down_texts(bhs, ms, j as int),
            shot == shot_down_texts(bhs, ms, j as int).len(),
            shot <= j,
        decreases bhs.len() - j,
    {
        let was_active = black_holes[j].active;
        let mut idx: usize = missiles.len();
        while idx > 0
            invariant
                0 <= j < bhs.len(),
                0 <= idx <= ms.len(),
                black_holes@.len() == bhs.len(),
                missiles@.len() == ms.len(),
                forall|l: int| 0 <= l < j ==> black_holes@[l] == black_hole_after_missiles(bhs[l], ms),
                forall|l: int| j < l < bhs.len() ==> black_holes@[l] == bhs[l],
                black_holes@[j as int] == bhs[j as int].after_hits(touch_count_from(ms, bhs[j as int], idx as int)),
                forall|k: int|
                    0 <= k < idx ==> missiles@[k] == if touch_count(ms[k], bhs, j as int) > 0 {
                        ms[k].collided()
                    } else {
                        ms[k]
                    },
                forall|k: int|
                    idx <= k < ms.len() ==> missiles@[k] == if touch_count(ms[k], bhs, j + 1) > 0 {
                        ms[k].collided()
                    } else {
                        ms[k]
                    },
            decreases idx,
        {
            idx -= 1;
            proof {
                lemma_hits_keep_shape(bhs[j as int], touch_count_from(ms, bhs[j as int], idx + 1));
            }
            check_collision_between(&mut missiles[idx], &mut black_holes[j]);
        }
        if was_active && !black_holes[j].active {
            temporary_texts.push(
                TemporaryText::anchored(BLACK_HOLE_REWARD, black_holes[j].position, TextColor::Green, SCORE_TEXT_MS),
            );
            shot += 1;
        }
        proof {
            lemma_hits_keep_shape(bhs[j as int], touch_count_from(ms, bhs[j as int], 0));
            assert(temporary_texts@ =~= texts0 + shot_down_texts(bhs, ms, j + 1));
        }
        j += 1;
    }
    proof {
        assert(missiles@ =~= ms.map_values(|m: Missile| missile_after_black_holes(m, bhs)));
        assert(black_holes@ =~= bhs.map_values(|b: BlackHole| black_hole_after_missiles(b, ms)));
    }
    shot
}

// ---------------------------------------------------------------------
// Asteroids against missiles.

/// Points for shooting an asteroid.
pub const ASTEROID_REWARD: i64 = 1;

/// Index of the last of the first `hi` missiles that asteroid `a` touches,
/// or -1 when none does. Missiles are tried from last to first, so this is
/// the one that takes the asteroid.
pub open spec fn last_touching(a: Asteroid, ms: Seq<Missile>, hi: int) -> int
    decreases hi,
{
    if hi <= 0 {
        -1
    } else if touching(a, ms[hi - 1]) {
        hi - 1
    } else {
        last_touching(a, ms, hi - 1)
    }
}

/// Whether some missile takes asteroid `a`.
pub open spec fn shot(a: Asteroid, ms: Seq<Missile>) -> bool {
    last_touching(a, ms, ms.len() as int) >= 0
}

/// Whether missile `k` takes one of the first `n` asteroids.
pub open spec fn missile_spent(asts: Seq<Asteroid>, ms: Seq<Missile>, k: int, n: int) -> bool
    decreases n,
{
    if n <= 0 {
        false
    } else {
        missile_spent(asts, ms, k, n - 1) || last_touching(asts[n - 1], ms, ms.len() as int) == k
    }
}

/// The missiles after the asteroids: each one that takes an asteroid is
/// lost.
pub open spec fn missiles_after_asteroids(asts: Seq<Asteroid>, ms: Seq<Missile>) -> Seq<Missile> {
    Seq::new(
        ms.len(),
        |k: int|
            if missile_spent(asts, ms, k, asts.len() as int) {
                ms[k].collided()
            } else {
                ms[k]
            },
    )
}

/// An asteroid after the missiles: destroyed if one takes it.
pub open spec fn asteroid_after_missiles(a: Asteroid, ms: Seq<Missile>) -> Asteroid {
    if shot(a, ms) {
        a.collided()
    } else {
        a
    }
}

/// The reward texts for the shot asteroids among the first `n`, in order.
pub open spec fn shot_texts(asts: Seq<Asteroid>, ms: Seq<Missile>, n: int) -> Seq<TemporaryText>
    decreases n,
{
    if n <= 0 {
        Seq::empty()
    } else {
        let rest = shot_texts(asts, ms, n - 1);
        if shot(asts[n - 1], ms) {
            rest.push(
                TemporaryText {
                    points: ASTEROID_REWARD,
                    position: text_anchor(asts[n - 1].position),
                    color: TextColor::Green,
                    lifetime: SCORE_TEXT_MS,
                },
            )
        } else {
            rest
        }
    }
}

/// The fragments of the shot asteroids among the first `n`, in order; the
/// asteroid at index `i` splits with variation `deltas[i]`.
pub open spec fn shot_fragments(asts: Seq<Asteroid>, ms: Seq<Missile>, deltas: Seq<Vec2>, n: int) -> Seq<Asteroid>
    decreases n,
{
    if n <= 0 {
        Seq::empty()
    } else {
        let rest = shot_fragments(asts, ms, deltas, n - 1);
        if shot(asts[n - 1], ms) {
            match asts[n - 1].split_spec(deltas[n - 1]) {
                Some((f1, f2)) => rest.push(f1).push(f2),
                None => rest,
            }
        } else {
            rest
        }
    }
}

/// Every asteroid meets the missiles, from last to first, until one
/// touches it: that pair is destroyed, a cue plays, a reward text appears
/// and the asteroid's fragments (split with `variations[i]` for asteroid
/// `i`) are returned. Returns the fragments and the number of asteroids
/// shot.
fn collide_asteroids_with_missiles(
    asteroids: &mut Vec<Asteroid>,
    missiles: &mut Vec<Missile>,
    temporary_texts: &mut Vec<TemporaryText>,
    cues: &mut Vec<Cue>,
    variations: &Vec<Vec2>,
) -> (r: (Vec<Asteroid>, usize))
    requires
        variations@.len() >= old(asteroids)@.len(),
    ensures
        final(asteroids)@ == old(asteroids)@.map_values(|a: Asteroid| asteroid_after_missiles(a, old(missiles)@)),
        final(missiles)@ == missiles_after_asteroids(old(asteroids)@, old(missiles)@),
        final(temporary_texts)@ == old(temporary_texts)@ + shot_texts(
            old(asteroids)@,
            old(missiles)@,
            old(asteroids)@.len() as int,
        ),
        r.1 == shot_texts(old(asteroids)@, old(missiles)@, old(asteroids)@.len() as int).len(),
        final(cues)@ == old(cues)@ + cues_of(Cue::AsteroidDestroyed, r.1 as nat),
        r.0@ == shot_fragments(old(asteroids)@, old(missiles)@, variations@, old(asteroids)@.len() as int),
{
    let ghost asts = asteroids@;
    let ghost ms = missiles@;
    let ghost texts0 = temporary_texts@;
    let ghost cues0 = cues@;
    let mut fragments: Vec<Asteroid> = Vec::new();
    let mut hits: usize = 0;
    let mut i: usize = 0;
    while i < asteroids.len()
        invariant
            0 <= i <= asts.len(),
            variations@.len() >= asts.len(),
            asteroids@.len() == asts.len(),
            missiles@.len() == ms.len(),
            forall|k: int| 0 <= k < i ==> asteroids@[k] == asteroid_after_missiles(asts[k], ms),
            forall|k: int| i <= k < asts.len() ==> asteroids@[k] == asts[k],
            forall|k: int|
                0 <= k < ms.len() ==> missiles@[k] == if missile_spent(asts, ms, k, i as int) {
                    ms[k].collided()
                } else {
                    ms[k]
                },
            temporary_texts@ == texts0 + shot_texts(asts, ms, i as int),
            hits == shot_texts(asts, ms, i as int).len(),
            hits <= i,
            cues@ == cues0 + cues_of(Cue::AsteroidDestroyed, hits as nat),
            fragments@ == shot_fragments(asts, ms, variations@, i as int),
        decreases asts.len() - i,
    {
        let mut idx: usize = missiles.len();
        let mut found = false;
        while idx > 0 && !found
            invariant
                0 <= i < asts.len(),
                0 <= idx <= ms.len(),
                asteroids@.len() == asts.len(),
                missiles@.len() == ms.len(),
                forall|k: int| 0 <= k < i ==> asteroids@[k] == asteroid_after_missiles(asts[k], ms),
                forall|k: int| i < k < asts.len() ==> asteroids@[k] == asts[k],
                !found ==> asteroids@[i as int] == asts[i as int],
                !found ==> last_touching(asts[i as int], ms, ms.len() as int) == last_touching(
                    asts[i as int],
                    ms,
                    idx as int,
                ),
                found ==> last_touching(asts[i as int], ms, ms.len() as int) == idx as int,
                found ==> asteroids@[i as int] == asts[i as int].collided(),
                forall|k: int|
                    0 <= k < ms.len() ==> missiles@[k] == if missile_spent(asts, ms, k, i as int) || (found
                        && k == idx) {
                        ms[k].collided()
                    } else {
                        ms[k]
                    },
            decreases idx + if found { 0int } else { 1int },
        {
            idx -= 1;
            if check_collision_between(&mut asteroids[i], &mut missiles[idx]) {
                found = true;
            }
        }
        if found {
            let a = asteroids[i];
            cues.push(Cue::AsteroidDestroyed);
            temporary_texts.push(TemporaryText::anchored(ASTEROID_REWARD, a.position, TextColor::Green, SCORE_TEXT_MS));
            hits += 1;
            match a.split_with_variation(variations[i]) {
                Some((c1, c2)) => {
                    fragments.push(c1);
                    fragments.push(c2);
                },
                None => {},
            }
        }
        proof {
            assert(temporary_texts@ =~= texts0 + shot_texts(asts, ms, i + 1));
            assert(cues@ =~= cues0 + cues_of(Cue::AsteroidDestroyed, hits as nat));
        }
        i += 1;
    }
    proof {
        assert(asteroids@ =~= asts.map_values(|a: Asteroid| asteroid_after_missiles(a, ms)));
        assert(missiles@ =~= missiles_after_asteroids(asts, ms));
    }
    (fragments, hits)
}

// ---------------------------------------------------------------------
// The whole pass.

/// Points lost when an asteroid hits the shielded ship.
pub const SHIELD_PENALTY: i64 = 5;

/// Milliseconds the penalty text stays on screen.
pub const PENALTY_TEXT_MS: i64 = 1000;

/// Index of the first body of `xs`, from `lo` on, that touches `y`; the
/// length of `xs` when none does.
pub open spec fn first_touching<A: StellarObject, B: StellarObject>(xs: Seq<A>, y: B, lo: int) -> int
    decreases xs.len() - lo,
{
    if lo >= xs.len() || lo < 0 {
        xs.len() as int
    } else if touching(xs[lo], y) {
        lo
    } else {
        first_touching(xs, y, lo + 1)
    }
}

/// Black holes, missiles and asteroids meet one another, the ship aside:
/// the asteroids and black holes first, then the black holes and missiles,
/// then the asteroids and missiles. The result gives, in this order, the
/// asteroids (survivors of the pass, then the fragments), the missiles,
/// the black holes, the texts added, the score gained and the number of
/// destruction cues.
pub open spec fn open_field_pass(asts: Seq<Asteroid>, ms: Seq<Missile>, bhs: Seq<BlackHole>, deltas: Seq<Vec2>) -> (
    Seq<Asteroid>,
    Seq<Missile>,
    Seq<BlackHole>,
    Seq<TemporaryText>,
    int,
    nat,
) {
    let a3 = asts.map_values(|a: Asteroid| asteroid_after_black_holes(a, bhs));
    let b3 = black_holes_after_asteroids(asts, bhs);
    let m4 = ms.map_values(|m: Missile| missile_after_black_holes(m, b3));
    let b4 = b3.map_values(|b: BlackHole| black_hole_after_missiles(b, ms));
    let down = shot_down_texts(b3, ms, b3.len() as int);
    let a5 = a3.map_values(|a: Asteroid| asteroid_after_missiles(a, m4));
    let m5 = missiles_after_asteroids(a3, m4);
    let hit = shot_texts(a3, m4, a3.len() as int);
    (
        a5 + shot_fragments(a3, m4, deltas, a3.len() as int),
        m5,
        b4,
        down + hit,
        BLACK_HOLE_REWARD * down.len() + ASTEROID_REWARD * hit.len(),
        asteroid_black_hole_pairs(asts, bhs, asts.len() as int) + hit.len(),
    )
}

/// The values a tick works on: the ship, the bodies, the score, the
/// floating texts and the cues to play.
pub struct Field {
    pub ship: Spaceship,
    pub asteroids: Seq<Asteroid>,
    pub missiles: Seq<Missile>,
    pub black_holes: Seq<BlackHole>,
    pub score: i64,
    pub texts: Seq<TemporaryText>,
    pub cues: Seq<Cue>,
}

/// The collision pass of one tick on field `f`, and whether the ship was
/// destroyed; `deltas[i]` is the speed variation with which asteroid `i`
/// would split.
///
/// An invincible ship skips the pass. Otherwise the first asteroid that
/// touches the ship collides with it: if the ship survives, it costs the
/// penalty, a red text, a shield cue and a black hole where the asteroid
/// was; if not, the game is over. Failing that, the first black hole that
/// touches the ship collides with it and the game is over. Failing that,
/// the bodies meet one another as `open_field_pass` says and the score
/// gains what it says.
pub open spec fn collision_result(f: Field, deltas: Seq<Vec2>) -> (Field, bool) {
    let i = first_touching(f.asteroids, f.ship, 0);
    let j = first_touching(f.black_holes, f.ship, 0);
    if f.ship.invincible {
        (f, false)
    } else if i < f.asteroids.len() {
        let hurt = f.ship.collided();
        let g = Field { ship: hurt, asteroids: f.asteroids.update(i, f.asteroids[i].collided()), ..f };
        if hurt.active {
            (
                Field {
                    score: clamp_i64(f.score - SHIELD_PENALTY),
                    texts: f.texts.push(
                        TemporaryText {
                            points: (-SHIELD_PENALTY) as i64,
                            position: text_anchor(f.ship.position),
                            color: TextColor::Red,
                            lifetime: PENALTY_TEXT_MS,
                        },
                    ),
                    black_holes: f.black_holes.push(
                        BlackHole {
                            position: f.asteroids[i].position,
                            size: f.asteroids[i].size.diameter(),
                            counter: 0,
                            active: true,
                        },
                    ),
                    cues: f.cues.push(Cue::ShieldLost),
                    ..g
                },
                false,
            )
        } else {
            (g, true)
        }
    } else if j < f.black_holes.len() {
        (Field { ship: f.ship.collided(), black_holes: f.black_holes.update(j, f.black_holes[j].collided()), ..f }, true)
    } else {
        let r = open_field_pass(f.asteroids, f.missiles, f.black_holes, deltas);
        (
            Field {
                asteroids: r.0,
                missiles: r.1,
                black_holes: r.2,
                texts: f.texts + r.3,
                score: clamp_i64(f.score + r.4),
                cues: f.cues + cues_of(Cue::AsteroidDestroyed, r.5),
                ..f
            },
            false,
        )
    }
}

/// While the ship is invincible the collision pass changes nothing and no
/// body handles a collision, however the bodies overlap.
pub proof fn lemma_invincible_ship_skips_collisions(f: Field, deltas: Seq<Vec2>)
    requires
        f.ship.invincible,
    ensures
        collision_result(f, deltas) == (f, false),
{
}

/// `collision_result` over separate values: from the state before (`…0`)
/// to the state after (`…1`), `over` telling whether the ship was
/// destroyed.
pub open spec fn collision_pass(
    ship0: Spaceship,
    asts0: Seq<Asteroid>,
    ms0: Seq<Missile>,
    bhs0: Seq<BlackHole>,
    score0: i64,
    texts0: Seq<TemporaryText>,
    cues0: Seq<Cue>,
    deltas: Seq<Vec2>,
    ship1: Spaceship,
    asts1: Seq<Asteroid>,
    ms1: Seq<Missile>,
    bhs1: Seq<BlackHole>,
    score1: i64,
    texts1: Seq<TemporaryText>,
    cues1: Seq<Cue>,
    over: bool,
) -> bool {
    let f0 = Field {
        ship: ship0,
        asteroids: asts0,
        missiles: ms0,
        black_holes: bhs0,
        score: score0,
        texts: texts0,
        cues: cues0,
    };
    let f1 = Field {
        ship: ship1,
        asteroids: asts1,
        missiles: ms1,
        black_holes: bhs1,
        score: score1,
        texts: texts1,
        cues: cues1,
    };
    collision_result(f0, deltas) == (f1, over)
}

/// Index of the first body of `xs` that touches `ship` (the length of `xs`
/// when none does); when there is one, it and the ship have handled the
/// collision.
fn first_ship_collision<A: StellarObject>(xs: &mut Vec<A>, ship: &mut Spaceship) -> (r: usize)
    ensures
        r == first_touching(old(xs)@, *old(ship), 0),
        r < old(xs)@.len() ==> final(xs)@ == old(xs)@.update(r as int, old(xs)@[r as int].collided())
            && *final(ship) == old(ship).collided(),
        r >= old(xs)@.len() ==> final(xs)@ == old(xs)@ && *final(ship) == *old(ship),
{
    let ghost xs0 = xs@;
    let ghost ship0 = *ship;
    let mut i: usize = 0;
    while i < xs.len()
        invariant
            0 <= i <= xs0.len(),
            xs@ == xs0,
            *ship == ship0,
            xs0 == old(xs)@,
            ship0 == *old(ship),
            first_touching(xs0, ship0, 0) == first_touching(xs0, ship0, i as int),
        decreases xs0.len() - i,
    {
        if check_collision_between(&mut xs[i], ship) {
            return i;
        }
        i += 1;
    }
    i
}

/// The collision pass of one tick, as `collision_pass` states, with
/// asteroid `i` splitting with speed variation `variations[i]`. Returns
/// whether the ship was destroyed.
pub fn resolve_collisions(
    spaceship: &mut Spaceship,
    asteroids: &mut Vec<Asteroid>,
    missiles: &mut Vec<Missile>,
    black_holes: &mut Vec<BlackHole>,
    score: &mut i64,
    temporary_texts: &mut Vec<TemporaryText>,
    cues: &mut Vec<Cue>,
    variations: &Vec<Vec2>,
) -> (over: bool)
    requires
        variations@.len() >= old(asteroids)@.len(),
    ensures
        collision_pass(
            *old(spaceship),
            old(asteroids)@,
            old(missiles)@,
            old(black_holes)@,
            *old(score),
            old(temporary_texts)@,
            old(cues)@,
            variations@,
            *final(spaceship),
            final(asteroids)@,
            final(missiles)@,
            final(black_holes)@,
            *final(score),
            final(temporary_texts)@,
            final(cues)@,
            over,
        ),
{
    if spaceship.invincible {
        return false;
    }
    let ghost ship0 = *spaceship;
    let ghost asts0 = asteroids@;
    let i = first_ship_collision(asteroids, spaceship);
    if i < asteroids.len() {
        if spaceship.active {
            let a = asteroids[i];
            cues.push(Cue::ShieldLost);
            *score = clamp_to_i64(*score as i128 - SHIELD_PENALTY as i128);
            temporary_texts.push(
                TemporaryText::anchored(-SHIELD_PENALTY, spaceship.position, TextColor::Red, PENALTY_TEXT_MS),
            );
            black_holes.push(BlackHole::new(a.position, a.size.scale()));
            return false;
        } else {
            return true;
        }
    }
    let j = first_ship_collision(black_holes, spaceship);
    if j < black_holes.len() {
        return true;
    }
    let ghost bhs0 = black_holes@;
    let ghost ms0 = missiles@;
    collide_asteroids_with_black_holes(asteroids, black_holes, cues);
    let down = collide_black_holes_with_missiles(black_holes, missiles, temporary_texts);
    let (mut fragments, hits) = collide_asteroids_with_missiles(asteroids, missiles, temporary_texts, cues, variations);
    asteroids.append(&mut fragments);
    *score = clamp_to_i64(*score as i128 + BLACK_HOLE_REWARD as i128 * down as i128 + ASTEROID_REWARD as i128 * hits as i128);
    proof {
        let r = open_field_pass(asts0, ms0, bhs0, variations@);
        assert(cues@ =~= old(cues)@ + cues_of(Cue::AsteroidDestroyed, r.5));
        assert(temporary_texts@ =~= old(temporary_texts)@ + r.3);
        assert(asteroids@ == r.0);
        assert(missiles@ == r.1);
        assert(black_holes@ == r.2);
        assert(*score == clamp_i64(*old(score) + r.4));
    }
    false
}

/// The collision pass of one tick with random split variations: it obeys
/// `collision_pass` for some variations within one unit. Returns whether
/// the ship was destroyed.
pub fn check_collision(
    spaceship: &mut Spaceship,
    asteroids: &mut Vec<Asteroid>,
    missiles: &mut Vec<Missile>,
    black_holes: &mut Vec<BlackHole>,
    score: &mut i64,
    temporary_texts: &mut Vec<TemporaryText>,
    cues: &mut Vec<Cue>,
) -> (over: bool)
    ensures
        exists|deltas: Seq<Vec2>|
            #![trigger collision_pass(
                *old(spaceship), old(asteroids)@, old(missiles)@, old(black_holes)@, *old(score),
                old(temporary_texts)@, old(cues)@, deltas, *final(spaceship), final(asteroids)@,
                final(missiles)@, final(black_holes)@, *final(score), final(temporary_texts)@,
                final(cues)@, over)]
            (forall|k: int| 0 <= k < deltas.len() ==> is_variation(#[trigger] deltas[k])) && collision_pass(
                *old(spaceship),
                old(asteroids)@,
                old(missiles)@,
                old(black_holes)@,
                *old(score),
                old(temporary_texts)@,
                old(cues)@,
                deltas,
                *final(spaceship),
                final(asteroids)@,
                final(missiles)@,
                final(black_holes)@,
                *final(score),
                final(temporary_texts)@,
                final(cues)@,
                over,
            ),
{
    let mut variations: Vec<Vec2> = Vec::new();
    let mut k: usize = 0;
    while k < asteroids.len()
        invariant
            variations@.len() == k,
            k <= asteroids@.len(),
            forall|l: int| 0 <= l < k ==> is_variation(#[trigger] variations@[l]),
        decreases asteroids@.len() - k,
    {
        variations.push(Asteroid::random_variation());
        k += 1;
    }
    resolve_collisions(spaceship, asteroids, missiles, black_holes, score, temporary_texts, cues, &variations)
}

} // verus!
