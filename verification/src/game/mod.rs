//! The generator: bodies, the system that holds them, and what they rest on.

pub mod arith;
pub mod body;
pub mod random;
pub mod system;
pub mod text;
