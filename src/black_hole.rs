//! Stationary gravity wells left by asteroids that hit a shielded ship.

use vstd::prelude::*;

use crate::geometry::{Screen, Vec2};
use crate::stellarobject::StellarObject;

verus! {

/// Number of collisions a black hole absorbs before it disappears.
pub const BLACK_HOLE_CAPACITY: u8 = 5;

/// A black hole; `size` is the diameter of the asteroid it came from.
#[derive(Clone, Copy, Debug, PartialEq, Eq, Structural)]
pub struct BlackHole {
    pub position: Vec2,
    pub size: u32,
    pub counter: u8,
    pub active: bool,
}

impl BlackHole {
    /// A fresh black hole at `position`, sized after an asteroid of
    /// diameter `size_ast`.
    pub fn new(position: Vec2, size_ast: u32) -> (r: BlackHole)
        ensures
            r.position == position,
            r.size == size_ast,
            r.counter == 0,
            r.active,
    {
        BlackHole { position, size: size_ast, counter: 0, active: true }
    }

    /// The black hole after `n` collisions.
    pub open spec fn after_hits(self, n: nat) -> BlackHole
        decreases n,
    {
        if n == 0 {
            self
        } else {
            self.after_hits((n - 1) as nat).collided()
        }
    }
}

impl StellarObject for BlackHole {
    open spec fn position_spec(&self) -> Vec2 {
        self.position
    }

    open spec fn radius_spec(&self) -> u32 {
        (self.size / 2) as u32
    }

    open spec fn moved(&self, screen: Screen) -> BlackHole {
        *self
    }

    /// Counts the hit; the fifth one switches the black hole off.
    open spec fn collided(&self) -> BlackHole {
        if self.counter < BLACK_HOLE_CAPACITY {
            BlackHole {
                counter: (self.counter + 1) as u8,
                active: self.active && self.counter + 1 < BLACK_HOLE_CAPACITY,
                ..*self
            }
        } else {
            BlackHole { active: false, ..*self }
        }
    }

    open spec fn active_spec(&self) -> bool {
        self.active
    }

    fn is_active(&self) -> bool {
        self.active
    }

    fn get_pos(&self) -> Vec2 {
        self.position
    }

    fn move_obj(&mut self, screen: Screen) {
    }

    fn radius(&self) -> u32 {
        self.size / 2
    }

    fn handle_collision(&mut self) {
        if self.counter < BLACK_HOLE_CAPACITY {
            self.counter = self.counter + 1;
            if self.counter == BLACK_HOLE_CAPACITY {
                self.active = false;
            }
        } else {
            self.active = false;
        }
    }
}

/// A fresh black hole survives four collisions, with its counter at four,
/// and is gone after the fifth.
pub proof fn lemma_black_hole_absorbs_five_hits(b: BlackHole)
    requires
        b.counter == 0,
        b.active,
    ensures
        b.after_hits(4).active,
        b.after_hits(4).counter == 4,
        !b.after_hits(5).active,
        b.after_hits(5).counter == 5,
{
    reveal_with_fuel(BlackHole::after_hits, 6);
}

} // verus!
