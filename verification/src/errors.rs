//! The error taxonomy of the pipeline. Every variant is terminal: the
//! stream never retries or skips past a failed block.

use vstd::prelude::*;

verus! {

/// Why the pipeline stopped. Each variant poisons the whole stream; a fresh
/// pipeline (constant load included) must be built to resume monitoring.
#[derive(Copy, Clone, Debug, PartialEq, Eq, Structural)]
pub enum StatsError {
    /// The chain session could not be established or maintained.
    ConnectionFailure,
    /// The block-weight-limits constant is absent from the chain's metadata.
    ConfigurationMissing,
    /// The constant's bytes do not match the expected layout.
    DecodeFailure,
    /// The raw statistics for a specific block could not be retrieved.
    BlockUnavailable,
    /// A transport or decoding error on a per-block query.
    QueryFailure,
}

} // verus!
