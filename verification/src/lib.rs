//! Live per-block resource metrics for a chain node.
//!
//! The library derives, for every observed block, how much proof-of-validity
//! bandwidth and execution weight the block consumed relative to the chain's
//! configured maxima. It holds the weight model, the decoder for the chain's
//! block-weight-limits constant, the per-block enrichment arithmetic, and the
//! fail-fast stream sequencer; the surrounding process does the network I/O
//! and hands plain values in.

pub mod errors;
pub mod loader;
pub mod scale;
pub mod sequencer;
pub mod stats;
pub mod weight;
