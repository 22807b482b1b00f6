//! Per-block enrichment: combining one block's raw execution statistics and
//! its consumed-weight aggregate with the run-wide ceilings into a single
//! metrics record, and the truncating percentage arithmetic read off it.

use vstd::prelude::*;
use crate::weight::{spec_total_weight, DispatchClassAggregate, Weight};

verus! {

/// The maximum permitted proof-of-validity size this tool assumes: half of
/// the relay chain's configured ceiling. A process-wide constant, not read
/// from the chain at runtime.
pub const POV_MAX: u64 = 5_242_880 / 2;

/// Identity of a newly observed block, as the notification source hands
/// it over: its hash and its height.
#[derive(Copy, Clone, Debug)]
pub struct BlockNote {
    /// The block hash.
    pub hash: [u8; 32],
    /// The block number.
    pub number: u32,
}

/// Raw execution statistics for one block, as the point query reports them.
#[derive(Copy, Clone, Debug)]
pub struct RawBlockStats {
    /// Size of the storage proof in bytes.
    pub witness_len: u64,
    /// Size of the block body in bytes.
    pub block_len: u64,
    /// Number of extrinsics in the block.
    pub num_extrinsics: u64,
}

/// Derived statistics for one block. Constructed exactly once, fully
/// populated, and never mutated; `max_pov` and `max_weight` are identical
/// across all records of one run.
#[derive(Copy, Clone, Debug)]
pub struct BlockStats {
    /// The block hash.
    pub hash: [u8; 32],
    /// The block number.
    pub number: u32,
    /// Total length of the proof of validity: storage proof plus block body.
    pub pov_len: u64,
    /// Size of the storage proof in bytes.
    pub witness_len: u64,
    /// Size of the block body in bytes.
    pub len: u64,
    /// Weight consumed by the block, summed over the three dispatch classes.
    pub weight: Weight,
    /// Number of extrinsics in the block.
    pub num_extrinsics: u64,
    /// The proof-of-validity ceiling every record of the run is held against.
    pub max_pov: u64,
    /// The weight ceiling every record of the run is held against.
    pub max_weight: Weight,
}

/// The record derived from one block's inputs: `pov_len` is exactly
/// `witness_len + block_len`, and `weight` is the saturating sum of the
/// three dispatch classes' consumed weight.
pub open spec fn spec_enrich(
    note: BlockNote,
    stats: RawBlockStats,
    consumed: DispatchClassAggregate<Weight>,
    max_pov: u64,
    max_weight: Weight,
) -> BlockStats {
    BlockStats {
        hash: note.hash,
        number: note.number,
        pov_len: (stats.witness_len + stats.block_len) as u64,
        witness_len: stats.witness_len,
        len: stats.block_len,
        weight: spec_total_weight(consumed),
        num_extrinsics: stats.num_extrinsics,
        max_pov,
        max_weight,
    }
}

/// The raw statistics are small enough for the proof-of-validity length to
/// be represented exactly.
pub open spec fn enrich_fits(stats: RawBlockStats) -> bool {
    stats.witness_len + stats.block_len <= u64::MAX
}

/// Derive the metrics record for one block.
pub fn enrich(
    note: BlockNote,
    stats: RawBlockStats,
    consumed: DispatchClassAggregate<Weight>,
    max_pov: u64,
    max_weight: Weight,
) -> (r: BlockStats)
    requires
        enrich_fits(stats),
    ensures
        r == spec_enrich(note, stats, consumed, max_pov, max_weight),
        r.pov_len == stats.witness_len + stats.block_len,
        r.weight == spec_total_weight(consumed),
{
    BlockStats {
        hash: note.hash,
        number: note.number,
        pov_len: stats.witness_len + stats.block_len,
        witness_len: stats.witness_len,
        len: stats.block_len,
        weight: consumed.total(),
        num_extrinsics: stats.num_extrinsics,
        max_pov,
        max_weight,
    }
}

/// `value` as a truncating integer percentage of `max`: `value * 100 / max`.
pub fn pct(value: u64, max: u64) -> (r: u64)
    requires
        1 <= max,
        value * 100 <= u64::MAX,
    ensures
        r == value * 100 / (max as int),
{
    value * 100 / max
}

impl BlockStats {
    /// Proof-of-validity size as a truncating percentage of the ceiling; a
    /// value over 100 is legitimate and reveals a misconfigured ceiling.
    pub fn pov_pct(&self) -> (r: u64)
        requires
            1 <= self.max_pov,
            self.pov_len * 100 <= u64::MAX,
        ensures
            r == self.pov_len * 100 / (self.max_pov as int),
    {
        pct(self.pov_len, self.max_pov)
    }

    /// Consumed computational time as a truncating percentage of its ceiling.
    pub fn ref_time_pct(&self) -> (r: u64)
        requires
            1 <= self.max_weight.ref_time,
            self.weight.ref_time * 100 <= u64::MAX,
        ensures
            r == self.weight.ref_time * 100 / (self.max_weight.ref_time as int),
    {
        pct(self.weight.ref_time, self.max_weight.ref_time)
    }

    /// Consumed proof-size weight as a truncating percentage of its ceiling.
    pub fn proof_size_pct(&self) -> (r: u64)
        requires
            1 <= self.max_weight.proof_size,
            self.weight.proof_size * 100 <= u64::MAX,
        ensures
            r == self.weight.proof_size * 100 / (self.max_weight.proof_size as int),
    {
        pct(self.weight.proof_size, self.max_weight.proof_size)
    }

    /// Proof-of-validity size in whole KiB, rounded down.
    pub fn pov_kib(&self) -> (r: u64)
        ensures
            r == self.pov_len / 1024,
    {
        self.pov_len / 1024
    }

    /// Storage-proof size in whole KiB, rounded down.
    pub fn witness_kib(&self) -> (r: u64)
        ensures
            r == self.witness_len / 1024,
    {
        self.witness_len / 1024
    }

    /// Block-body size in whole KiB, rounded down.
    pub fn len_kib(&self) -> (r: u64)
        ensures
            r == self.len / 1024,
    {
        self.len / 1024
    }

    /// Consumed proof-size weight in whole KiB, rounded down.
    pub fn proof_size_kib(&self) -> (r: u64)
        ensures
            r == self.weight.proof_size / 1024,
    {
        self.weight.proof_size / 1024
    }

    /// Consumed computational time in whole milliseconds, rounded down.
    pub fn ref_time_ms(&self) -> (r: u64)
        ensures
            r == self.weight.ref_time / 1_000_000_000,
    {
        self.weight.ref_time / 1_000_000_000
    }
}

} // verus!
