//! The weight model: the chain's two-dimensional execution-cost unit and its
//! aggregation across the three dispatch classes.

use vstd::prelude::*;

verus! {

/// Chain execution cost of a block or extrinsic.
///
/// Both components are non-negative counters; addition is component-wise and
/// saturates instead of wrapping, so a sum over adversarially large inputs can
/// never silently lose magnitude.
#[derive(Copy, Clone, Debug, PartialEq, Eq, Structural)]
pub struct Weight {
    /// Computational time consumed, measured against reference hardware.
    pub ref_time: u64,
    /// Storage-proof bytes consumed by the proof of validity.
    pub proof_size: u64,
}

/// Component-wise saturating sum of two weights, as a mathematical value.
pub open spec fn spec_weight_add(a: Weight, b: Weight) -> Weight {
    Weight {
        ref_time: sat_add_u64(a.ref_time, b.ref_time),
        proof_size: sat_add_u64(a.proof_size, b.proof_size),
    }
}

/// `a + b`, capped at `u64::MAX`.
pub open spec fn sat_add_u64(a: u64, b: u64) -> u64 {
    if a + b <= u64::MAX {
        (a + b) as u64
    } else {
        u64::MAX
    }
}

impl Weight {
    /// The zero weight: the additive identity.
    pub fn zero() -> (r: Weight)
        ensures
            r == (Weight { ref_time: 0, proof_size: 0 }),
    {
        Weight { ref_time: 0, proof_size: 0 }
    }

    /// Component-wise saturating addition.
    pub fn add(self, rhs: Weight) -> (r: Weight)
        ensures
            r == spec_weight_add(self, rhs),
    {
        Weight {
            ref_time: u64_saturating_add(self.ref_time, rhs.ref_time),
            proof_size: u64_saturating_add(self.proof_size, rhs.proof_size),
        }
    }
}

fn u64_saturating_add(a: u64, b: u64) -> (r: u64)
    ensures
        r == sat_add_u64(a, b),
{
    if a <= u64::MAX - b {
        a + b
    } else {
        u64::MAX
    }
}

/// One value per dispatch class: the same quantity partitioned by the
/// chain's three extrinsic priority tiers.
#[derive(Copy, Clone, Debug)]
pub struct DispatchClassAggregate<T> {
    /// The share attributed to ordinary extrinsics.
    pub normal: T,
    /// The share attributed to operational (privileged) extrinsics.
    pub operational: T,
    /// The share attributed to mandatory (inherent) extrinsics.
    pub mandatory: T,
}

/// Field-wise saturating sum of the three dispatch classes of `a`.
pub open spec fn spec_total_weight(a: DispatchClassAggregate<Weight>) -> Weight {
    spec_weight_add(spec_weight_add(a.normal, a.operational), a.mandatory)
}

impl DispatchClassAggregate<Weight> {
    /// The aggregate with the zero weight in every class: what a storage
    /// lookup falls back to when a block has no recorded value.
    pub fn zero() -> (r: DispatchClassAggregate<Weight>)
        ensures
            r == (DispatchClassAggregate {
                normal: Weight { ref_time: 0, proof_size: 0 },
                operational: Weight { ref_time: 0, proof_size: 0 },
                mandatory: Weight { ref_time: 0, proof_size: 0 },
            }),
    {
        DispatchClassAggregate {
            normal: Weight::zero(),
            operational: Weight::zero(),
            mandatory: Weight::zero(),
        }
    }

    /// Total weight across the three dispatch classes: the field-wise
    /// saturating sum `normal + operational + mandatory`.
    pub fn total(&self) -> (r: Weight)
        ensures
            r == spec_total_weight(*self),
    {
        self.normal.add(self.operational).add(self.mandatory)
    }
}

/// Per-class weight limits as the chain configures them; decoded with the
/// rest of the block-weight-limits constant but not read by the derivation.
#[derive(Copy, Clone, Debug)]
pub struct WeightsPerClass {
    /// Fixed cost charged to every extrinsic of the class.
    pub base_extrinsic: Weight,
    /// Largest single extrinsic the class admits, if bounded.
    pub max_extrinsic: Option<Weight>,
    /// Largest total the class may occupy in one block, if bounded.
    pub max_total: Option<Weight>,
    /// Weight reserved for the class even in a full block, if any.
    pub reserved: Option<Weight>,
}

/// The chain's block-weight-limits constant, loaded once per run.
#[derive(Copy, Clone, Debug)]
pub struct ChainWeightLimits {
    /// Fixed per-block overhead; informational only.
    pub base_block: Weight,
    /// The weight ceiling every percentage is computed against.
    pub max_block: Weight,
    /// Detailed per-class limits; decoded but unused by the derivation.
    pub per_class: DispatchClassAggregate<WeightsPerClass>,
}

/// Saturating weight addition is commutative.
pub proof fn lemma_weight_add_comm(a: Weight, b: Weight)
    ensures
        spec_weight_add(a, b) == spec_weight_add(b, a),
{
}

/// Saturating weight addition is associative.
pub proof fn lemma_weight_add_assoc(a: Weight, b: Weight, c: Weight)
    ensures
        spec_weight_add(spec_weight_add(a, b), c) == spec_weight_add(a, spec_weight_add(b, c)),
{
}

} // verus!
