//! A proof-of-work search library: a difficulty predicate over digest
//! nibbles, a hex wire codec, work-state refresh and submission-statistics
//! rules, and the candidate search step that ties them together.

pub mod api;
pub mod difficulty;
pub mod digest;
pub mod engine;
pub mod state;
pub mod wire;
