//! Refresh scheduling and caching of football fixtures, keyed by league.
//!
//! The library holds the decisions of a fixture service: which leagues are
//! tracked, which dates a refresh asks for, how the outcome of a fetch changes
//! the cache, and what a reader sees when it looks a league up. Everything is
//! stated over plain values, so the network, the clock and the chat front end
//! stay with the caller.

pub mod cache;
pub mod calendar;
pub mod fetch;
pub mod leagues;
pub mod models;
pub mod query;
pub mod render;
pub mod scheduler;
pub mod text;
