//! Simulation core of a top-down arcade shooter, in fixed-point integers.
//!
//! Lengths are micro-pixels (`i64`), time is milliseconds (`u64`), and a
//! velocity is micro-pixels per millisecond, so one velocity unit is one
//! thousandth of a pixel per second.
use vstd::prelude::*;

pub mod geometry;
pub mod world;
pub mod collision;
pub mod lifecycle;
pub mod weapon;
pub mod spawner;
pub mod movement;
pub mod targeting;
pub mod sim;
