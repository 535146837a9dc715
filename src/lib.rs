//! Rules of a side-scrolling arcade game: a sprite falls under gravity, the
//! player makes it jump, pairs of obstacles scroll towards it, touching one
//! ends the round, and each pair passed scores a point.
//!
//! All quantities are fixed-point integers so that every rule is exact:
//! lengths in units of 10^-12 pixel, time in microseconds, velocities in
//! length units per microsecond and accelerations in length units per
//! microsecond squared.
pub mod units;
pub mod motion;
pub mod collision;
pub mod game;
pub mod timer;
