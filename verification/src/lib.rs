//! A verified player registry for a simple game leaderboard.
//!
//! The registry assigns sequential identifiers to player records, stores
//! and retrieves them by identifier, updates scores, enumerates all
//! records, and deletes records while keeping a watermark count. Lookups
//! that miss return a fixed sentinel record rather than an error.

pub mod laws;
pub mod player;
pub mod registry;
