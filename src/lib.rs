//! Simulation core of a single-screen asteroid shooter: entity model,
//! movement with screen wrap-around, circle collisions, asteroid splitting,
//! the ship's shield state machine and the per-tick game session.
//!
//! Lengths, positions and velocities are fixed-point integers: one screen
//! unit is `geometry::UNIT` steps. Times are whole milliseconds. Angles are
//! milliradians.

mod random;

pub mod asteroid;
pub mod black_hole;
pub mod collision;
pub mod effects;
pub mod game;
pub mod geometry;
pub mod missile;
pub mod spaceship;
pub mod stellarobject;
