//! A small homogeneous-coordinate algebra: four-component tuples that stand
//! for points and vectors, three-component colors, and a projectile step
//! built on tuple addition.
//!
//! Components are exact scalars (quotients of 64-bit integers), so every
//! operation's result is stated and proved precisely against a mathematical
//! model of unbounded rationals.

pub mod color;
pub mod rat;
pub mod scalar;
pub mod sim;
pub mod tuple;
