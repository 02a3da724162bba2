//! The per-node message-processing core of an incrementally maintained
//! dataflow: differential record batches flow into a domain, are dispatched on
//! the target node's variant, materialize state, fan out to children and
//! other domains, and keep externally readable views consistent under a
//! double-buffer swap, while timestamp and transaction metadata ride along
//! unchanged.

pub mod channel;
pub mod data;
pub mod domain;
pub mod graph;
pub mod message;
pub mod node;
pub mod reader;
pub mod sql;
pub mod state;
