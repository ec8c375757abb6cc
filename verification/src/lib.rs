//! Boundary adapter for a beatmap performance calculation engine.
//!
//! The adapter receives untrusted foreign-call arguments (a beatmap path and a
//! mods bitmask formatted as decimal text, both as byte strings, plus play
//! statistics), validates and decodes them, and builds the request that the
//! host hands to the external scoring engine.  The engine itself is an opaque
//! collaborator; what is verified here is the boundary contract: defensive
//! decoding of the byte strings, the closed game-mode mapping, the lenient
//! mods fallback, the tri-state optional, and the bit-exact result record.

pub mod mode;
pub mod mods;
pub mod record;
pub mod request;
pub mod utf8;
