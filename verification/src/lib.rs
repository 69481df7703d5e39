//! Decision logic of a small third-person player controller: what a freshly
//! spawned player starts with, and what the keys reported for a frame ask of
//! the application and of the player's body.
//!
//! The keyboard's state is read from the engine's `ButtonInput`. Everything
//! after that works on plain values. Vector arithmetic on real numbers and
//! writing velocities back belong to the program that embeds this library.

pub mod health;
pub mod input;
pub mod keys;
pub mod steering;
