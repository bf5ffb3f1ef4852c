//! Verified core of a stateful gateway proxy: per-shard session state
//! machine, cluster/shard partitioning with identify-rate admission,
//! an in-memory entity cache, and the message-bus bridge protocol that
//! republishes gateway events and answers cache queries.

pub mod bridge;
pub mod cache;
pub mod cluster;
pub mod config;
pub mod gate;
pub mod protocol;
pub mod session;
pub mod store;
pub mod text;
