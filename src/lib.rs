//! Dialect-aware SQL operations for a host runtime: dialect-name resolution,
//! an error taxonomy over the engine's failures, and the handling of each
//! operation's engine outcome.
pub mod dialect;
pub mod errors;
pub mod ops;
