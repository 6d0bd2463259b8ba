//! Projectiles fired by the ship: they fly straight and are lost once they
//! leave the screen.

use vstd::prelude::*;

use crate::geometry::{sum_clamped, Screen, Vec2, UNIT};
use crate::stellarobject::StellarObject;

verus! {

/// Distance a missile covers per tick, in screen units.
pub const MISSILE_SPEED: i64 = 4;

/// Radius of a missile, in fixed-point steps.
pub const MISSILE_RADIUS: u32 = 2000;

#[derive(Clone, Copy, Debug, PartialEq, Eq, Structural)]
pub struct Missile {
    pub position: Vec2,
    pub velocity: Vec2,
    pub active: bool,
    pub radius: u32,
}

impl Missile {
    /// A missile leaving `position` along `heading`, the unit vector of the
    /// firing angle (`UNIT` steps long).
    pub fn new(position: Vec2, heading: Vec2) -> (r: Missile)
        requires
            -UNIT <= heading.x <= UNIT,
            -UNIT <= heading.y <= UNIT,
        ensures
            r.position == position,
            r.velocity == (Vec2 { x: (heading.x * MISSILE_SPEED) as i64, y: (heading.y * MISSILE_SPEED) as i64 }),
            r.active,
            r.radius == MISSILE_RADIUS,
    {
        Missile {
            position,
            velocity: Vec2 { x: heading.x * MISSILE_SPEED, y: heading.y * MISSILE_SPEED },
            active: true,
            radius: MISSILE_RADIUS,
        }
    }

    /// Switches the missile off once it stands outside the screen.
    fn wrap_around_screen(&mut self, screen: Screen)
        ensures
            final(self).position == old(self).position,
            final(self).velocity == old(self).velocity,
            final(self).radius == old(self).radius,
            final(self).active == (old(self).active && screen.contains(old(self).position)),
    {
        if self.position.x < 0 || self.position.x >= screen.width || self.position.y < 0
            || self.position.y >= screen.height {
            self.active = false;
        }
    }
}

impl StellarObject for Missile {
    open spec fn position_spec(&self) -> Vec2 {
        self.position
    }

    open spec fn radius_spec(&self) -> u32 {
        self.radius
    }

    /// One step along the velocity, without wrap-around; off the screen the
    /// missile is lost.
    open spec fn moved(&self, screen: Screen) -> Missile {
        let p = sum_clamped(self.position, self.velocity);
        Missile { position: p, active: self.active && screen.contains(p), ..*self }
    }

    open spec fn collided(&self) -> Missile {
        Missile { active: false, ..*self }
    }

    open spec fn active_spec(&self) -> bool {
        self.active
    }

    fn is_active(&self) -> bool {
        self.active
    }

    fn get_pos(&self) -> Vec2 {
        self.position
    }

    fn move_obj(&mut self, screen: Screen) {
        self.position = self.position.add_clamped(self.velocity);
        self.wrap_around_screen(screen);
    }

    fn radius(&self) -> u32 {
        self.radius
    }

    fn handle_collision(&mut self) {
        self.active = false;
    }
}

} // verus!
