//! The constant loader: the one-time, pre-subscription step that turns the
//! chain's block-weight-limits constant into a `ChainWeightLimits` value.
//!
//! The metadata lookup itself is the caller's: it hands over the constant's
//! raw bytes, or nothing when the pallet or constant is absent. Both
//! failures are fatal to the whole pipeline: without the limits no
//! percentage is meaningful.

use vstd::prelude::*;
use crate::errors::StatsError;
use crate::scale::spec_decode_weight_limits;
use crate::scale::decode_weight_limits;
use crate::weight::ChainWeightLimits;

verus! {

/// What the constant loader returns for given constant bytes: the decoded
/// limits, `ConfigurationMissing` when the chain's metadata has no such
/// constant, or `DecodeFailure` when the bytes do not match the layout.
pub open spec fn spec_load_weight_limits(constant: Option<Seq<u8>>) -> Result<
    ChainWeightLimits,
    StatsError,
> {
    match constant {
        Option::None => Result::Err(StatsError::ConfigurationMissing),
        Option::Some(bytes) => match spec_decode_weight_limits(bytes, 0) {
            Option::Some(p) => Result::Ok(p.0),
            Option::None => Result::Err(StatsError::DecodeFailure),
        },
    }
}

/// Decode the block-weight-limits constant, or say exactly why it cannot
/// be had. `constant` is `None` when the chain's metadata lacks the
/// constant; trailing bytes after the record are ignored, as the chain's
/// codec ignores them.
pub fn load_weight_limits(constant: Option<Vec<u8>>) -> (r: Result<ChainWeightLimits, StatsError>)
    ensures
        r == spec_load_weight_limits(
            match constant {
                Option::Some(b) => Option::Some(b@),
                Option::None => Option::None,
            },
        ),
{
    match constant {
        Option::None => Result::Err(StatsError::ConfigurationMissing),
        Option::Some(bytes) => match decode_weight_limits(&bytes, 0) {
            Option::Some((limits, _)) => Result::Ok(limits),
            Option::None => Result::Err(StatsError::DecodeFailure),
        },
    }
}

} // verus!
