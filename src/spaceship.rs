//! The player's ship: thrust and rotation, wrap-around motion, and the
//! shield / invincibility state machine.

use vstd::prelude::*;

use crate::geometry::{clamp_i64, clamp_to_i64, sum_clamped, Screen, Vec2, UNIT};
use crate::stellarobject::StellarObject;

verus! {

/// Radius of the ship, in fixed-point steps.
pub const SHIP_RADIUS: u32 = 25000;

/// Invincibility granted when the shield is lost, in milliseconds.
pub const HIT_INVINCIBILITY_MS: i64 = 2000;

/// Invincibility granted at the start of a wave, in milliseconds.
pub const WAVE_INVINCIBILITY_MS: i64 = 1000;

/// Speed lost per tick while no thrust is applied, in fixed-point steps.
pub const DECELERATION: i64 = 5;

/// The ship. `rotation` is in milliradians and `invincibility_timer` in
/// milliseconds; `hit` marks that the shield was just lost.
#[derive(Clone, Copy, Debug, PartialEq, Eq, Structural)]
pub struct Spaceship {
    pub position: Vec2,
    pub velocity: Vec2,
    pub rotation: i64,
    pub shield: bool,
    pub invincible: bool,
    pub invincibility_timer: i64,
    pub hit: bool,
    pub active: bool,
    pub radius: u32,
}

/// Whether `r` is the integer square root of `n`.
pub open spec fn is_isqrt(n: int, r: int) -> bool {
    0 <= r && r * r <= n < (r + 1) * (r + 1)
}

/// The integer square root of a non-negative `n`.
pub open spec fn int_sqrt(n: int) -> int {
    choose|r: int| is_isqrt(n, r)
}

/// The squared magnitude of a velocity.
pub open spec fn norm_sq(v: Vec2) -> int {
    v.x * v.x + v.y * v.y
}

proof fn lemma_isqrt_unique(n: int, a: int, b: int)
    requires
        is_isqrt(n, a),
        is_isqrt(n, b),
    ensures
        a == b,
{
    if a < b {
        assert((a + 1) * (a + 1) <= b * b) by (nonlinear_arith)
            requires 0 <= a, a + 1 <= b;
    } else if b < a {
        assert((b + 1) * (b + 1) <= a * a) by (nonlinear_arith)
            requires 0 <= b, b + 1 <= a;
    }
}

/// Thrust along `heading` (a unit vector `UNIT` steps long) of `amount`
/// steps, each component rounded toward zero.
pub open spec fn thrust_of(heading: Vec2, amount: int) -> Vec2 {
    Vec2 { x: trunc_div(heading.x * amount, UNIT as int) as i64, y: trunc_div(heading.y * amount, UNIT as int) as i64 }
}

/// Division rounded toward zero, by a positive divisor.
pub open spec fn trunc_div(a: int, d: int) -> int {
    if a >= 0 {
        a / d
    } else {
        -((-a) / d)
    }
}

/// One component of a velocity of magnitude `m` after it loses
/// `DECELERATION` along its own direction (rounded toward zero).
pub open spec fn slowed_component(c: int, m: int) -> int {
    let loss = (if c >= 0 { c } else { -c }) * DECELERATION / m;
    if c >= 0 { c - loss } else { c + loss }
}

/// A velocity of integer magnitude `m` after one tick of passive
/// deceleration: it shrinks by `DECELERATION` along its own direction and
/// stops instead of overshooting zero.
pub open spec fn decelerated(v: Vec2, m: int) -> Vec2 {
    if m <= DECELERATION {
        Vec2 { x: 0, y: 0 }
    } else {
        Vec2 { x: slowed_component(v.x as int, m) as i64, y: slowed_component(v.y as int, m) as i64 }
    }
}

/// The thrust along `heading` of `amount` steps per tick.
pub fn thrust_vector(heading: Vec2, amount: i64) -> (r: Vec2)
    requires
        -UNIT <= heading.x <= UNIT,
        -UNIT <= heading.y <= UNIT,
        -UNIT <= amount <= UNIT,
    ensures
        r == thrust_of(heading, amount as int),
{
    Vec2 { x: scale_component(heading.x, amount), y: scale_component(heading.y, amount) }
}

fn scale_component(c: i64, amount: i64) -> (r: i64)
    requires
        -UNIT <= c <= UNIT,
        -UNIT <= amount <= UNIT,
    ensures
        r == trunc_div(c * amount, UNIT as int),
{
    assert(-UNIT * UNIT <= c * amount <= UNIT * UNIT) by (nonlinear_arith)
        requires -UNIT <= c <= UNIT, -UNIT <= amount <= UNIT;
    let p = c * amount;
    if p >= 0 {
        p / UNIT
    } else {
        -((-p) / UNIT)
    }
}

/// A fresh ship at the centre of `screen`, at rest, facing angle zero,
/// with its shield up.
pub open spec fn fresh_ship(screen: Screen) -> Spaceship {
    Spaceship {
        position: Vec2 { x: (screen.width / 2) as i64, y: (screen.height / 2) as i64 },
        velocity: Vec2 { x: 0, y: 0 },
        rotation: 0,
        shield: true,
        invincible: false,
        invincibility_timer: 0,
        hit: false,
        active: true,
        radius: SHIP_RADIUS,
    }
}

/// The ship after its invincibility window is counted down by `elapsed_ms`.
pub open spec fn invincibility_ticked(s: Spaceship, elapsed_ms: i64) -> Spaceship {
    if s.invincible {
        let t = clamp_i64(s.invincibility_timer - elapsed_ms);
        Spaceship { invincibility_timer: t, invincible: t > 0, hit: s.hit && t > 0, ..s }
    } else {
        s
    }
}

impl Spaceship {
    pub fn new(screen: Screen) -> (r: Spaceship)
        requires
            screen.wf(),
        ensures
            r == fresh_ship(screen),
    {
        Spaceship {
            position: Vec2 { x: screen.width / 2, y: screen.height / 2 },
            velocity: Vec2 { x: 0, y: 0 },
            rotation: 0,
            shield: true,
            invincible: false,
            invincibility_timer: 0,
            hit: false,
            active: true,
            radius: SHIP_RADIUS,
        }
    }

    /// Adds `thrust`, the facing direction scaled by the thrust amount (a
    /// negative amount brakes), to the velocity.
    pub fn apply_thrust(&mut self, thrust: Vec2)
        ensures
            *final(self) == (Spaceship { velocity: sum_clamped(old(self).velocity, thrust), ..*old(self) }),
    {
        self.velocity = self.velocity.add_clamped(thrust);
    }

    /// Turns the ship by `angle` milliradians.
    pub fn rotate(&mut self, angle: i64)
        ensures
            *final(self) == (Spaceship { rotation: clamp_i64(old(self).rotation + angle), ..*old(self) }),
    {
        self.rotation = clamp_to_i64(self.rotation as i128 + angle as i128);
    }

    /// Passive deceleration: the speed drops by `DECELERATION` along the
    /// direction of motion, never past zero.
    pub fn decelerate(&mut self)
        ensures
            *final(self) == (Spaceship {
                velocity: decelerated(old(self).velocity, int_sqrt(norm_sq(old(self).velocity))),
                ..*old(self)
            }),
    {
        let vx = self.velocity.x as i128;
        let vy = self.velocity.y as i128;
        assert(0 <= vx * vx <= 0x4000_0000_0000_0000_0000_0000_0000_0000) by (nonlinear_arith)
            requires -0x8000_0000_0000_0000 <= vx <= 0x8000_0000_0000_0000;
        assert(0 <= vy * vy <= 0x4000_0000_0000_0000_0000_0000_0000_0000) by (nonlinear_arith)
            requires -0x8000_0000_0000_0000 <= vy <= 0x8000_0000_0000_0000;
        let n: u128 = (vx * vx) as u128 + (vy * vy) as u128;
        let m = isqrt(n);
        proof {
            let v = self.velocity;
            assert(n == norm_sq(v));
            assert(is_isqrt(norm_sq(v), int_sqrt(norm_sq(v))));
            lemma_isqrt_unique(norm_sq(v), m as int, int_sqrt(norm_sq(v)));
        }
        if m <= DECELERATION as u128 {
            self.velocity = Vec2 { x: 0, y: 0 };
        } else {
            let x = slow_component(self.velocity.x, m);
            let y = slow_component(self.velocity.y, m);
            self.velocity = Vec2 { x, y };
        }
    }

    /// Counts the invincibility window down by `elapsed_ms`; when it runs
    /// out the ship is vulnerable again and the hit mark is cleared.
    pub fn tick_invincibility(&mut self, elapsed_ms: i64)
        ensures
            *final(self) == invincibility_ticked(*old(self), elapsed_ms),
    {
        if self.invincible {
            self.invincibility_timer = clamp_to_i64(self.invincibility_timer as i128 - elapsed_ms as i128);
            if self.invincibility_timer <= 0 {
                self.invincible = false;
                self.hit = false;
            }
        }
    }

    /// The grace period of a new wave: shield up, invincible for
    /// `WAVE_INVINCIBILITY_MS`, hit mark cleared.
    pub fn restore_for_wave(&mut self)
        ensures
            *final(self) == (Spaceship {
                shield: true,
                invincible: true,
                invincibility_timer: WAVE_INVINCIBILITY_MS,
                hit: false,
                ..*old(self)
            }),
    {
        self.shield = true;
        self.invincible = true;
        self.invincibility_timer = WAVE_INVINCIBILITY_MS;
        self.hit = false;
    }
}

/// Integer square root, by bisection.
fn isqrt(n: u128) -> (r: u128)
    ensures
        is_isqrt(n as int, r as int),
{
    let mut lo: u128 = 0;
    let mut hi: u128 = 0x1_0000_0000_0000_0000;
    assert(hi * hi > n) by (nonlinear_arith)
        requires hi == 0x1_0000_0000_0000_0000, n <= u128::MAX;
    while hi - lo > 1
        invariant
            lo < hi <= 0x1_0000_0000_0000_0000,
            lo * lo <= n,
            n < hi * hi,
        decreases hi - lo,
    {
        let mid = lo + (hi - lo) / 2;
        assert(mid * mid <= u128::MAX) by (nonlinear_arith)
            requires mid < 0x1_0000_0000_0000_0000;
        if mid * mid <= n {
            lo = mid;
        } else {
            hi = mid;
        }
    }
    lo
}

/// One velocity component after losing `DECELERATION` along a direction of
/// magnitude `m`.
fn slow_component(c: i64, m: u128) -> (r: i64)
    requires
        m > DECELERATION,
        (c as int) * (c as int) < (m as int + 1) * (m as int + 1),
    ensures
        r == slowed_component(c as int, m as int),
{
    let a: u128 = if c >= 0 { c as u128 } else { (-(c as i128)) as u128 };
    assert((a as int) * (a as int) == (c as int) * (c as int)) by (nonlinear_arith)
        requires a as int == c as int || a as int == -(c as int);
    assert(a <= m) by (nonlinear_arith)
        requires (a as int) * (a as int) < (m as int + 1) * (m as int + 1), a >= 0, m >= 0;
    assert(a * 5 <= m * 5) by (nonlinear_arith) requires a <= m;
    let loss: u128 = a * 5 / m;
    assert(loss <= 5) by (nonlinear_arith) requires loss as int == (a as int) * 5 / (m as int), a <= m, m > 5;
    assert(loss <= a) by (nonlinear_arith) requires loss as int == (a as int) * 5 / (m as int), m > 5, a >= 0;
    if c >= 0 {
        c - loss as i64
    } else {
        c + loss as i64
    }
}

impl StellarObject for Spaceship {
    open spec fn position_spec(&self) -> Vec2 {
        self.position
    }

    open spec fn radius_spec(&self) -> u32 {
        self.radius
    }

    /// One step along the velocity, wrapped on both axes.
    open spec fn moved(&self, screen: Screen) -> Spaceship {
        Spaceship { position: screen.wrapped_step(self.position, self.velocity), ..*self }
    }

    /// With the shield up, a hit takes it down and grants invincibility;
    /// without it, the ship is destroyed.
    open spec fn collided(&self) -> Spaceship {
        if self.shield {
            Spaceship {
                shield: false,
                invincible: true,
                invincibility_timer: HIT_INVINCIBILITY_MS,
                hit: true,
                ..*self
            }
        } else {
            Spaceship { active: false, ..*self }
        }
    }

    open spec fn active_spec(&self) -> bool {
        self.active
    }

    fn is_active(&self) -> bool {
        self.active
    }

    fn get_pos(&self) -> Vec2 {
        self.position
    }

    fn move_obj(&mut self, screen: Screen) {
        self.position = crate::geometry::wrap_step(screen, self.position, self.velocity);
    }

    fn radius(&self) -> u32 {
        self.radius
    }

    fn handle_collision(&mut self) {
        if self.shield {
            self.shield = false;
            self.invincible = true;
            self.invincibility_timer = HIT_INVINCIBILITY_MS;
            self.hit = true;
        } else {
            self.active = false;
        }
    }
}

/// A shielded ship that is hit loses its shield and becomes invincible for
/// `HIT_INVINCIBILITY_MS` with the hit mark set; an unshielded one is
/// destroyed.
pub proof fn lemma_ship_hit_transitions(s: Spaceship)
    ensures
        s.shield ==> {
            let t = s.collided();
            !t.shield && t.invincible && t.invincibility_timer == HIT_INVINCIBILITY_MS && t.hit && t.active
                == s.active
        },
        !s.shield ==> !s.collided().active,
{
}

} // verus!
