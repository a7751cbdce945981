//! Loudness and peak level of a frame: the settings of the meter and the
//! shape of what it exchanges.

use vstd::prelude::*;
use crate::binary64::{at_most, le, Real, ZERO};
use crate::error::Error;
use crate::matrix::FrameCall;

verus! {

/// What the meter measures on one frame, both in decibels.
#[derive(Debug, Clone, Copy)]
pub struct LoudnessResult {
    pub loudness_db: Real,
    pub peak_db: Real,
}

/// The first rule, if any, that the settings of a meter break: a frame that
/// is not empty, and a sample rate that is not zero or below. A rate that is
/// no number passes, as it is not below anything.
pub open spec fn meter_fault(frame_size: usize, sample_rate: Real) -> Option<Error> {
    if frame_size == 0 {
        Some(Error::FrameSizeZero)
    } else if le(sample_rate, ZERO) {
        Some(Error::SampleRateNotPositive)
    } else {
        None
    }
}

/// The settings of a loudness meter.
#[derive(Debug, Clone, Copy)]
pub struct Loudness {
    frame_size: usize,
    sample_rate: Real,
}

impl Loudness {
    #[verifier::type_invariant]
    spec fn valid(&self) -> bool {
        meter_fault(self.frame_size, self.sample_rate) is None
    }

    /// The length of a frame, in samples.
    pub closed spec fn spec_frame_size(&self) -> usize {
        self.frame_size
    }

    /// The sample rate.
    pub closed spec fn spec_sample_rate(&self) -> Real {
        self.sample_rate
    }

    /// Accepts settings that break no rule.
    pub fn new(frame_size: usize, sample_rate: Real) -> (r: Result<Self, Error>)
        ensures
            match meter_fault(frame_size, sample_rate) {
                Some(e) => r is Err && r->Err_0 == e,
                None => r is Ok && r->Ok_0.spec_frame_size() == frame_size
                    && r->Ok_0.spec_sample_rate() == sample_rate,
            },
    {
        if frame_size == 0 {
            return Err(Error::FrameSizeZero);
        }
        if at_most(sample_rate, ZERO) {
            return Err(Error::SampleRateNotPositive);
        }
        Ok(Loudness { frame_size, sample_rate })
    }

    /// Takes a frame of exactly `frame_size` samples and names the call to
    /// make: the engine writes the loudness and the peak.
    pub fn process_frame(&self, input: &[Real]) -> (call: FrameCall)
        requires
            input@.len() == self.spec_frame_size(),
        ensures
            call == (FrameCall { input_len: self.spec_frame_size(), output_len: 2 }),
    {
        FrameCall { input_len: input.len(), output_len: 2 }
    }

    /// Reads what the engine wrote: the loudness first, then the peak.
    pub fn result(output: &[Real]) -> (r: LoudnessResult)
        requires
            output@.len() == 2,
        ensures
            r.loudness_db == output@[0],
            r.peak_db == output@[1],
    {
        LoudnessResult { loudness_db: output[0], peak_db: output[1] }
    }

    /// The length of a frame, in samples.
    #[verifier::when_used_as_spec(spec_frame_size)]
    pub fn frame_size(&self) -> (r: usize)
        ensures
            r == self.spec_frame_size(),
            r > 0,
    {
        proof {
            use_type_invariant(self);
        }
        self.frame_size
    }

    /// The sample rate.
    #[verifier::when_used_as_spec(spec_sample_rate)]
    pub fn sample_rate(&self) -> (r: Real)
        ensures
            r == self.spec_sample_rate(),
            !le(r, ZERO),
    {
        proof {
            use_type_invariant(self);
        }
        self.sample_rate
    }
}

} // verus!
