//! A verified core for bridging a callback-based leaderboard platform to an
//! awaitable host API.
//!
//! The crate never talks to the platform itself. Each operation that needs the
//! platform is split at its single suspension point: one function decides what
//! to ask of the platform (or that nothing has to be asked), the host performs
//! the call and waits, and a second function turns the platform's answer into
//! the public result and updates the handle cache.

pub mod vocabulary;
pub mod platform;
pub mod cache;
pub mod adapter;
pub mod service;
pub mod laws;
