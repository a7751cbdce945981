//! Envelope segmentation, sample by sample: the settings that the engine
//! starts with.

use vstd::prelude::*;
use crate::binary64::Real;
use crate::error::Error;

verus! {

/// The settings that an envelope segmenter starts with. Any pair of numbers
/// is accepted.
#[derive(Debug, Clone, Copy)]
pub struct EnvelopeSegmentation {
    floor: Real,
    hi_pass_freq: Real,
}

impl EnvelopeSegmentation {
    /// The level below which the signal counts as silent.
    pub closed spec fn spec_floor(&self) -> Real {
        self.floor
    }

    /// The frequency of the high-pass filter.
    pub closed spec fn spec_hi_pass_freq(&self) -> Real {
        self.hi_pass_freq
    }

    /// Keeps the level below which the signal counts as silent and the
    /// frequency of the high-pass filter. This cannot fail.
    pub fn new(floor: Real, hi_pass_freq: Real) -> (r: Result<Self, Error>)
        ensures
            r is Ok,
            r->Ok_0.spec_floor() == floor,
            r->Ok_0.spec_hi_pass_freq() == hi_pass_freq,
    {
        Ok(EnvelopeSegmentation { floor, hi_pass_freq })
    }

    /// The level below which the signal counts as silent.
    #[verifier::when_used_as_spec(spec_floor)]
    pub fn floor(&self) -> (r: Real)
        ensures
            r == self.spec_floor(),
    {
        self.floor
    }

    /// The frequency of the high-pass filter.
    #[verifier::when_used_as_spec(spec_hi_pass_freq)]
    pub fn hi_pass_freq(&self) -> (r: Real)
        ensures
            r == self.spec_hi_pass_freq(),
    {
        self.hi_pass_freq
    }
}

} // verus!
