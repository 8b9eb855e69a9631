//! A verified player motion controller: keyboard intent is accumulated into a
//! direction vector, rotated into camera space, normalized and scaled into a
//! velocity; each tick the velocity moves the player, steers its facing toward
//! the direction of travel, and decays exponentially.
//!
//! All quantities are fixed-point integers: lengths in thousandths of a world
//! unit, angles in milliradians.

pub mod angle;
pub mod controller;
pub mod math;
