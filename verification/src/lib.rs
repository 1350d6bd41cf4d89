//! Procedural generation of a star system: one star, up to ten orbiting
//! bodies spread over three orbital zones, and the orbit of each body.
//!
//! All physical quantities are integers in fixed units, so that every rule of
//! the generator can be stated and proved exactly. Randomness enters only
//! through an explicit generator handed to each function.

pub mod game;
