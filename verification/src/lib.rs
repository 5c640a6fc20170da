//! A deterministic simulation harness for a blockchain node.
//!
//! Instead of waiting for a time-based consensus protocol, a test driver
//! requests block production on demand ("seal a block"), while the full
//! validation pipeline of a production node still runs: transaction
//! admission, block construction, consensus-metadata injection, block
//! import, and state query.
//!
//! The core is the manual block-authorship engine: it turns a seal command
//! into a fully constructed, consensus-stamped, imported block, coordinating
//! a transaction pool, an inherent-data provider, a consensus metadata
//! provider, and a block-import pipeline. Every accepted command advances the
//! chain head by exactly one block; every failed command leaves the chain
//! exactly as it was.

pub mod channel;
pub mod engine;
pub mod ids;
pub mod import;
pub mod laws;
pub mod node;
pub mod pool;
pub mod providers;
pub mod runtime;
pub mod types;
