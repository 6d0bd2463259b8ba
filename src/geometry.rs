//! Fixed-point plane geometry: vectors, the screen rectangle, wrap-around
//! and the circle-overlap test.

use vstd::prelude::*;

verus! {

/// Fixed-point steps per screen unit.
pub const UNIT: i64 = 1000;

/// A point or a displacement, in fixed-point steps.
#[derive(Clone, Copy, Debug, PartialEq, Eq, Structural)]
pub struct Vec2 {
    pub x: i64,
    pub y: i64,
}

/// The playing field `[0, width) x [0, height)`, in fixed-point steps.
#[derive(Clone, Copy, Debug, PartialEq, Eq, Structural)]
pub struct Screen {
    pub width: i64,
    pub height: i64,
}

/// Clamps a mathematical integer into the range of `i64`.
pub open spec fn clamp_i64(v: int) -> i64 {
    if v < i64::MIN {
        i64::MIN
    } else if v > i64::MAX {
        i64::MAX
    } else {
        v as i64
    }
}

/// Component-wise sum, clamped to the range of `i64`.
pub open spec fn sum_clamped(a: Vec2, b: Vec2) -> Vec2 {
    Vec2 { x: clamp_i64(a.x + b.x), y: clamp_i64(a.y + b.y) }
}

/// Component-wise difference, clamped to the range of `i64`.
pub open spec fn diff_clamped(a: Vec2, b: Vec2) -> Vec2 {
    Vec2 { x: clamp_i64(a.x - b.x), y: clamp_i64(a.y - b.y) }
}

/// Wrap-around of a coordinate into `[0, d)`.
pub open spec fn wrap(p: int, d: int) -> int {
    ((p % d) + d) % d
}

/// Squared Euclidean distance between two points.
pub open spec fn dist_sq(a: Vec2, b: Vec2) -> int {
    (a.x - b.x) * (a.x - b.x) + (a.y - b.y) * (a.y - b.y)
}

/// Two circles overlap when the distance between their centres is strictly
/// below the sum of their radii (both sides are non-negative, so the test
/// is done on squares).
pub open spec fn collides(a: Vec2, ra: int, b: Vec2, rb: int) -> bool {
    dist_sq(a, b) < (ra + rb) * (ra + rb)
}

impl Screen {
    pub open spec fn wf(self) -> bool {
        self.width > 0 && self.height > 0
    }

    /// Whether a point lies inside the playing field.
    pub open spec fn contains(self, p: Vec2) -> bool {
        0 <= p.x < self.width && 0 <= p.y < self.height
    }

    /// The position reached from `p` after a step `v`, wrapped on both axes.
    pub open spec fn wrapped_step(self, p: Vec2, v: Vec2) -> Vec2 {
        Vec2 { x: wrap(p.x + v.x, self.width as int) as i64, y: wrap(p.y + v.y, self.height as int) as i64 }
    }

    pub fn new(width: i64, height: i64) -> (r: Screen)
        ensures
            r.width == width,
            r.height == height,
    {
        Screen { width, height }
    }

    /// Builds a screen from its size in whole units.
    pub fn from_units(width: u32, height: u32) -> (r: Screen)
        ensures
            r.width == width * UNIT,
            r.height == height * UNIT,
    {
        Screen { width: width as i64 * UNIT, height: height as i64 * UNIT }
    }
}

impl Vec2 {
    pub fn new(x: i64, y: i64) -> (r: Vec2)
        ensures
            r.x == x,
            r.y == y,
    {
        Vec2 { x, y }
    }

    /// Builds a vector from whole units.
    pub fn units(x: i32, y: i32) -> (r: Vec2)
        ensures
            r.x == x * UNIT,
            r.y == y * UNIT,
    {
        Vec2 { x: x as i64 * UNIT, y: y as i64 * UNIT }
    }

    /// `self + o`, each component clamped to the range of `i64`.
    pub fn add_clamped(self, o: Vec2) -> (r: Vec2)
        ensures
            r == sum_clamped(self, o),
    {
        Vec2 { x: clamp_to_i64(self.x as i128 + o.x as i128), y: clamp_to_i64(self.y as i128 + o.y as i128) }
    }

    /// `self - o`, each component clamped to the range of `i64`.
    pub fn sub_clamped(self, o: Vec2) -> (r: Vec2)
        ensures
            r == diff_clamped(self, o),
    {
        Vec2 { x: clamp_to_i64(self.x as i128 - o.x as i128), y: clamp_to_i64(self.y as i128 - o.y as i128) }
    }
}

pub(crate) fn clamp_to_i64(v: i128) -> (r: i64)
    ensures
        r == clamp_i64(v as int),
{
    if v < i64::MIN as i128 {
        i64::MIN
    } else if v > i64::MAX as i128 {
        i64::MAX
    } else {
        v as i64
    }
}

/// Wraps `p` into `[0, d)`.
pub fn wrap_coord(p: i128, d: i64) -> (r: i64)
    requires
        d > 0,
    ensures
        r as int == wrap(p as int, d as int),
        0 <= r < d,
{
    proof {
        lemma_wrap_is_mod(p as int, d as int);
    }
    match p.checked_rem_euclid(d as i128) {
        Some(m) => m as i64,
        None => 0,
    }
}

/// Moves `p` by `v` and wraps the result on both axes of `screen`.
pub fn wrap_step(screen: Screen, p: Vec2, v: Vec2) -> (r: Vec2)
    requires
        screen.wf(),
    ensures
        r == screen.wrapped_step(p, v),
        screen.contains(r),
{
    Vec2 {
        x: wrap_coord(p.x as i128 + v.x as i128, screen.width),
        y: wrap_coord(p.y as i128 + v.y as i128, screen.height),
    }
}

/// Circle-overlap test: strict, so touching circles do not collide.
pub fn circles_collide(a: Vec2, ra: u32, b: Vec2, rb: u32) -> (r: bool)
    ensures
        r == collides(a, ra as int, b, rb as int),
{
    let dx: i128 = a.x as i128 - b.x as i128;
    let dy: i128 = a.y as i128 - b.y as i128;
    let s: i128 = ra as i128 + rb as i128;
    if dx >= s || -dx >= s || dy >= s || -dy >= s {
        proof {
            lemma_far_apart(dx as int, dy as int, s as int);
        }
        false
    } else {
        assert(0 <= dx * dx <= s * s) by (nonlinear_arith)
            requires -s < dx < s;
        assert(0 <= dy * dy <= s * s) by (nonlinear_arith)
            requires -s < dy < s;
        assert(s * s <= 0x4_0000_0000 * 0x4_0000_0000) by (nonlinear_arith)
            requires 0 <= s <= 0x4_0000_0000;
        dx * dx + dy * dy < s * s
    }
}

proof fn lemma_far_apart(dx: int, dy: int, s: int)
    requires
        s >= 0,
        dx >= s || -dx >= s || dy >= s || -dy >= s,
    ensures
        dx * dx + dy * dy >= s * s,
{
    assert(dx * dx + dy * dy >= s * s) by (nonlinear_arith)
        requires
            s >= 0,
            dx >= s || -dx >= s || dy >= s || -dy >= s,
    ;
}

proof fn lemma_wrap_is_mod(p: int, d: int)
    requires
        d > 0,
    ensures
        wrap(p, d) == p % d,
        0 <= p % d < d,
{
    vstd::arithmetic::div_mod::lemma_mod_add_multiples_vanish(p % d, d);
    vstd::arithmetic::div_mod::lemma_mod_twice(p, d);
}

/// Wrap-around lands in `[0, d)` and wrapping twice changes nothing.
pub proof fn lemma_wrap_in_range_and_idempotent(p: int, d: int)
    requires
        d > 0,
    ensures
        0 <= wrap(p, d) < d,
        wrap(wrap(p, d), d) == wrap(p, d),
{
    lemma_wrap_is_mod(p, d);
    lemma_wrap_is_mod(wrap(p, d), d);
    vstd::arithmetic::div_mod::lemma_small_mod(wrap(p, d) as nat, d as nat);
}

/// The overlap test is the strict distance test: for any non-negative `dist`
/// whose square is the squared distance between the centres, the circles
/// collide exactly when `dist` is below the sum of the radii; at equality
/// they do not.
pub proof fn lemma_collision_is_strict_distance_test(a: Vec2, ra: int, b: Vec2, rb: int, dist: int)
    requires
        ra >= 0,
        rb >= 0,
        dist >= 0,
        dist * dist == dist_sq(a, b),
    ensures
        collides(a, ra, b, rb) <==> dist < ra + rb,
        dist == ra + rb ==> !collides(a, ra, b, rb),
{
    let s = ra + rb;
    if dist < s {
        assert(dist * dist < s * s) by (nonlinear_arith)
            requires 0 <= dist < s;
    } else {
        assert(dist * dist >= s * s) by (nonlinear_arith)
            requires 0 <= s <= dist;
    }
}

} // verus!
