//! Verified core of a publish/subscribe library: channel registries, the
//! in-memory message backend, and the decisions that drive subscription loops.

pub mod errors;
pub mod channels;
pub mod streams;
pub mod backend;
pub mod broadcast_streams;
pub mod watch_streams;
pub mod laws;
