//! Liveness checks of HTTP endpoints: header validation, a work queue that
//! hands each URL out exactly once, a retry policy, per-URL result slots and
//! an aggregate summary. The network requests, the clock and the threads that
//! drive these pieces live outside the library.

pub mod headers;
pub mod status;
pub mod retry;
pub mod queue;
pub mod dispatch;
pub mod summary;
pub mod config;
