//! One peer of a randomized gossip network that drives every peer's numeric
//! value toward the shared arithmetic mean through repeated pairwise
//! exchanges.
//!
//! The verified core is the peer runtime: the value store and its merge rule,
//! the connection registry with its bounded per-peer queues, the gossip
//! scheduler's decisions, and the inbound exchange handler. Transport and
//! timing live outside the library and drive it through plain values.

pub mod convergence;
pub mod peer;
pub mod poisson;
pub mod queue;
pub mod value;
