//! The physics and round-state core of a two-player Pong simulation.
//!
//! Everything is computed on integers. A coordinate is a whole number of
//! length units, a size is the full extent of a box along an axis, and a
//! velocity is the distance covered in one tick. The host chooses what a unit
//! is (a pixel, a fraction of one) and converts at its boundary.

pub mod arena;
pub mod collision;
pub mod config;
pub mod entity;
pub mod geometry;
pub mod input;
pub mod motion;
pub mod numeric;
pub mod rng;
pub mod round;
pub mod serve;
pub mod trail;
pub mod world;
