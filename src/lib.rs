//! A discrete-time simulation of equally sized square bodies that bounce off
//! the edges of a rectangular area and off each other.
//!
//! All quantities are exact integers: positions are measured in millionths of
//! a distance unit, elapsed time in microseconds, and velocities in distance
//! units per second, so that a velocity times an elapsed time is a
//! displacement in millionths of a unit with no rounding.
pub mod body;
pub mod collision;
pub mod geometry;
pub mod world;
