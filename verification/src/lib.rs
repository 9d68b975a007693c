//! A small in-memory key-value service core: a sharded store keyed by a
//! deterministic hash, the GET/SET command model over a framed protocol,
//! the per-connection dispatch step, and the client-side command
//! multiplexer that correlates each request with a single-use reply slot.

pub mod actor;
pub mod command;
pub mod handler;
pub mod hash;
pub mod laws;
pub mod store;
