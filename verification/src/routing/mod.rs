//! Positions on the identifier ring and how they are derived.

pub mod identifier;
pub mod peer;
