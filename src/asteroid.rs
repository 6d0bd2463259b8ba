//! Asteroids: size tiers, spawning near an edge, wrap-around motion and
//! splitting into fragments.

use vstd::prelude::*;

use crate::geometry::{diff_clamped, sum_clamped, Screen, Vec2, UNIT};
use crate::random::random_between;
use crate::stellarobject::StellarObject;

verus! {

/// Size tiers, from the largest down.
#[derive(Clone, Copy, Debug, PartialEq, Eq, Structural)]
pub enum Size {
    Large,
    Medium,
    Small,
}

impl Size {
    /// Diameter of the tier, in fixed-point steps.
    pub open spec fn diameter(self) -> u32 {
        match self {
            Size::Large => 100000,
            Size::Medium => 70000,
            Size::Small => 40000,
        }
    }

    /// The tier of the fragments of a split, if any.
    pub open spec fn next_spec(self) -> Option<Size> {
        match self {
            Size::Large => Some(Size::Medium),
            Size::Medium => Some(Size::Small),
            Size::Small => None,
        }
    }

    /// Rank of the tier: larger tiers rank higher.
    pub open spec fn rank(self) -> nat {
        match self {
            Size::Large => 2,
            Size::Medium => 1,
            Size::Small => 0,
        }
    }

    pub fn scale(self) -> (r: u32)
        ensures
            r == self.diameter(),
    {
        match self {
            Size::Large => 100000,
            Size::Medium => 70000,
            Size::Small => 40000,
        }
    }

    pub fn next(self) -> (r: Option<Size>)
        ensures
            r == self.next_spec(),
    {
        match self {
            Size::Large => Some(Size::Medium),
            Size::Medium => Some(Size::Small),
            Size::Small => None,
        }
    }
}

/// Splitting never makes an asteroid larger: the tier strictly shrinks.
pub proof fn lemma_next_size_is_smaller(s: Size)
    ensures
        s.next_spec() is Some ==> s.next_spec()->Some_0.rank() + 1 == s.rank(),
        s.next_spec() is None <==> s == Size::Small,
{
}

#[derive(Clone, Copy, Debug, PartialEq, Eq, Structural)]
pub struct Asteroid {
    pub position: Vec2,
    pub speed: Vec2,
    pub size: Size,
    pub active: bool,
}

/// Whether `v` is a valid random speed variation: both components within
/// one unit.
pub open spec fn is_variation(v: Vec2) -> bool {
    -UNIT <= v.x <= UNIT && -UNIT <= v.y <= UNIT
}

/// Whether coordinate `p` lies in the band `[d/2, d]` from either end of
/// `[0, extent]`.
pub open spec fn near_edge(p: int, d: int, extent: int) -> bool {
    (d / 2 <= p <= d) || (extent - d <= p <= extent - d / 2)
}

impl Asteroid {
    /// The two fragments of a split with speed variation `delta`, or none
    /// for the smallest tier.
    pub open spec fn split_spec(self, delta: Vec2) -> Option<(Asteroid, Asteroid)> {
        match self.size.next_spec() {
            Some(s) => Some(
                (
                    Asteroid { position: self.position, speed: sum_clamped(self.speed, delta), size: s, active: true },
                    Asteroid { position: self.position, speed: diff_clamped(self.speed, delta), size: s, active: true },
                ),
            ),
            None => None,
        }
    }

    /// A live asteroid of the given tier, position and speed.
    pub fn new_with_size(size: Size, position: Vec2, speed: Vec2) -> (r: Asteroid)
        ensures
            r == (Asteroid { position, speed, size, active: true }),
    {
        Asteroid { position, speed, size, active: true }
    }

    /// A live asteroid of a random tier, placed near a corner of `screen`
    /// (each coordinate between half a diameter and a diameter from an
    /// edge), moving with `speed`.
    pub fn new(screen: Screen, speed: Vec2) -> (r: Asteroid)
        requires
            screen.wf(),
        ensures
            r.speed == speed,
            r.active,
            near_edge(r.position.x as int, r.size.diameter() as int, screen.width as int),
            near_edge(r.position.y as int, r.size.diameter() as int, screen.height as int),
    {
        let i = random_between(0, 2);
        let size = if i == 0 {
            Size::Large
        } else if i == 1 {
            Size::Medium
        } else {
            Size::Small
        };
        let position = Self::new_random_position(screen, size.scale());
        Asteroid { position, speed, size, active: true }
    }

    pub fn get_size(&self) -> (r: Size)
        ensures
            r == self.size,
    {
        self.size
    }

    /// The two fragments of a split with speed variation `delta`: same
    /// position, next tier down, speeds `speed + delta` and `speed - delta`;
    /// none for the smallest tier.
    pub fn split_with_variation(&self, delta: Vec2) -> (r: Option<(Asteroid, Asteroid)>)
        ensures
            r == self.split_spec(delta),
    {
        match self.size.next() {
            Some(new_size) => Some(
                (
                    Asteroid::new_with_size(new_size, self.position, self.speed.add_clamped(delta)),
                    Asteroid::new_with_size(new_size, self.position, self.speed.sub_clamped(delta)),
                ),
            ),
            None => None,
        }
    }

    /// A random speed variation, each component within one unit.
    pub fn random_variation() -> (r: Vec2)
        ensures
            is_variation(r),
    {
        let x = random_between(-UNIT, UNIT);
        let y = random_between(-UNIT, UNIT);
        Vec2 { x, y }
    }

    /// Splits with a random speed variation.
    pub fn split(&self) -> (r: Option<(Asteroid, Asteroid)>)
        ensures
            exists|d: Vec2| is_variation(d) && r == self.split_spec(d),
    {
        let d = Self::random_variation();
        self.split_with_variation(d)
    }

    /// A random coordinate in the band `[d/2, d]` from one of the two ends
    /// of `[0, extent]`.
    fn random_near_edge(d: u32, extent: i64) -> (r: i64)
        requires
            extent > 0,
        ensures
            near_edge(r as int, d as int, extent as int),
    {
        let near = random_between((d / 2) as i64, d as i64);
        if random_between(0, 1) == 0 {
            near
        } else {
            extent - near
        }
    }

    fn new_random_position(screen: Screen, size: u32) -> (r: Vec2)
        requires
            screen.wf(),
        ensures
            near_edge(r.x as int, size as int, screen.width as int),
            near_edge(r.y as int, size as int, screen.height as int),
    {
        Vec2 { x: Self::random_near_edge(size, screen.width), y: Self::random_near_edge(size, screen.height) }
    }
}

/// Splitting a tier with a smaller tier gives two fragments of that tier at
/// the parent's position, whose speeds are the parent's plus and minus one
/// variation; the smallest tier gives none.
pub proof fn lemma_split_fragments(a: Asteroid, delta: Vec2)
    requires
        i64::MIN <= a.speed.x - delta.x && a.speed.x + delta.x <= i64::MAX,
        i64::MIN <= a.speed.x + delta.x && a.speed.x - delta.x <= i64::MAX,
        i64::MIN <= a.speed.y - delta.y && a.speed.y + delta.y <= i64::MAX,
        i64::MIN <= a.speed.y + delta.y && a.speed.y - delta.y <= i64::MAX,
    ensures
        a.size == Size::Large ==> a.split_spec(delta) is Some && a.split_spec(delta)->Some_0.0.size
            == Size::Medium && a.split_spec(delta)->Some_0.1.size == Size::Medium,
        a.size == Size::Medium ==> a.split_spec(delta) is Some && a.split_spec(delta)->Some_0.0.size
            == Size::Small && a.split_spec(delta)->Some_0.1.size == Size::Small,
        a.size == Size::Small ==> a.split_spec(delta) is None,
        a.split_spec(delta) is Some ==> {
            let (f1, f2) = a.split_spec(delta)->Some_0;
            &&& f1.position == a.position && f2.position == a.position
            &&& f1.speed.x == a.speed.x + delta.x && f1.speed.y == a.speed.y + delta.y
            &&& f2.speed.x == a.speed.x - delta.x && f2.speed.y == a.speed.y - delta.y
        },
{
}

impl StellarObject for Asteroid {
    open spec fn position_spec(&self) -> Vec2 {
        self.position
    }

    open spec fn radius_spec(&self) -> u32 {
        (self.size.diameter() / 2) as u32
    }

    /// One step along the speed, wrapped on both axes.
    open spec fn moved(&self, screen: Screen) -> Asteroid {
        Asteroid { position: screen.wrapped_step(self.position, self.speed), ..*self }
    }

    open spec fn collided(&self) -> Asteroid {
        Asteroid { active: false, ..*self }
    }

    open spec fn active_spec(&self) -> bool {
        self.active
    }

    fn is_active(&self) -> bool {
        self.active
    }

    fn get_pos(&self) -> Vec2 {
        self.position
    }

    fn move_obj(&mut self, screen: Screen) {
        self.position = crate::geometry::wrap_step(screen, self.position, self.speed);
    }

    fn radius(&self) -> u32 {
        self.size.scale() / 2
    }

    fn handle_collision(&mut self) {
        self.active = false;
    }
}

} // verus!
