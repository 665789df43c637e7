//! Core state engine for a small multiplayer survival board game.
//!
//! The library owns the per-session game state: a randomized weather
//! schedule with a single storm turn, a roster of players, shared
//! resource counters, and the transition logic that applies player
//! actions. The only view of a session that ever crosses the system
//! boundary is the redacted board snapshot, which exposes the current
//! turn's weather and storm flag but never the schedule itself.

pub mod laws;
pub mod player;
pub mod schedule;
pub mod state;
