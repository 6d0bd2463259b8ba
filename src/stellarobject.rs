//! The capabilities shared by every body of the simulation.

use vstd::prelude::*;

use crate::geometry::{collides, Screen, Vec2};

verus! {

/// A body of the simulation: it has a position and a radius, moves once per
/// tick and responds when it is hit.
pub trait StellarObject: Sized {
    /// Where the body stands.
    spec fn position_spec(&self) -> Vec2;

    /// Its radius, in fixed-point steps.
    spec fn radius_spec(&self) -> u32;

    /// The body after one tick of motion on `screen`.
    spec fn moved(&self, screen: Screen) -> Self;

    /// The body after it has handled one collision.
    spec fn collided(&self) -> Self;

    /// Whether the body is still in play.
    spec fn active_spec(&self) -> bool;

    fn is_active(&self) -> (r: bool)
        ensures
            r == self.active_spec(),
    ;

    fn get_pos(&self) -> (r: Vec2)
        ensures
            r == self.position_spec(),
    ;

    fn move_obj(&mut self, screen: Screen)
        requires
            screen.wf(),
        ensures
            *final(self) == old(self).moved(screen),
    ;

    fn radius(&self) -> (r: u32)
        ensures
            r == self.radius_spec(),
    ;

    fn handle_collision(&mut self)
        ensures
            *final(self) == old(self).collided(),
    ;
}

/// Whether two bodies overlap.
pub open spec fn touching<A: StellarObject, B: StellarObject>(a: A, b: B) -> bool {
    collides(a.position_spec(), a.radius_spec() as int, b.position_spec(), b.radius_spec() as int)
}

/// Tests two bodies for overlap; when they overlap, both handle the
/// collision, the first one first.
pub fn check_collision_between<A: StellarObject, B: StellarObject>(obj1: &mut A, obj2: &mut B) -> (r: bool)
    ensures
        r == touching(*old(obj1), *old(obj2)),
        r ==> *final(obj1) == old(obj1).collided() && *final(obj2) == old(obj2).collided(),
        !r ==> *final(obj1) == *old(obj1) && *final(obj2) == *old(obj2),
{
    let p1 = obj1.get_pos();
    let p2 = obj2.get_pos();
    let r1 = obj1.radius();
    let r2 = obj2.radius();
    if crate::geometry::circles_collide(p1, r1, p2, r2) {
        obj1.handle_collision();
        obj2.handle_collision();
        true
    } else {
        false
    }
}

} // verus!
