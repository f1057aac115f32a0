//! A small web-handler library built around two independent ideas:
//!
//! - a request decorator that wraps an inner handler, observes each request
//!   on the way in and each successful response on the way out, and returns
//!   the inner handler's result unchanged; and
//! - a trio of shared-state counters (a lock-guarded global, a per-worker
//!   local, and a lock-free global) that a handler bumps on every request
//!   before rendering a plain-text status line.
//!
//! The executable pieces carry contracts that pin down exactly what each
//! call returns and how it changes the counters; a small transition model
//! relates the counters to whole runs of requests spread over any number
//! of worker threads.

pub mod handler;
pub mod middleware;
pub mod model;
pub mod render;
pub mod state;
