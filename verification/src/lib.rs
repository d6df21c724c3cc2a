//! Routing and protocol core of a Chord-style distributed hash table node:
//! the 256-bit identifier ring and the binary message codec.

pub mod message;
pub mod routing;
