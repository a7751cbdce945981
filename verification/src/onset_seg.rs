//! Onset segmentation on spectral frames: the settings of the engine and
//! the shape of what it reads.

use vstd::prelude::*;
use crate::binary64::Real;
use crate::error::Error;
use crate::onset::{detector_fault, filter_capacity, validate_detector, OnsetFunction, MIN_FILTER_CAPACITY};

verus! {

/// One step of a segmenter: what is measured on a frame, and when the
/// measure counts as an onset.
#[derive(Debug, Clone, Copy)]
pub struct OnsetSegCall {
    pub input_len: usize,
    pub function: OnsetFunction,
    pub filter_size: usize,
    pub threshold: Real,
    pub debounce: usize,
    pub frame_delta: usize,
}

/// The settings of an onset segmenter.
#[derive(Debug, Clone, Copy)]
pub struct OnsetSegmentation {
    window_size: usize,
    fft_size: usize,
    filter_size: usize,
}

impl OnsetSegmentation {
    #[verifier::type_invariant]
    spec fn valid(&self) -> bool {
        detector_fault(self.window_size, self.fft_size) is None
    }

    /// The length of the analysis window, in samples.
    pub closed spec fn spec_window_size(&self) -> usize {
        self.window_size
    }

    /// The length of the transform, in points.
    pub closed spec fn spec_fft_size(&self) -> usize {
        self.fft_size
    }

    /// The size of the smoothing filter.
    pub closed spec fn spec_filter_size(&self) -> usize {
        self.filter_size
    }

    /// Accepts sizes that break no rule.
    pub fn new(window_size: usize, fft_size: usize, filter_size: usize) -> (r: Result<Self, Error>)
        ensures
            match detector_fault(window_size, fft_size) {
                Some(e) => r is Err && r->Err_0 == e,
                None => {
                    &&& r is Ok
                    &&& r->Ok_0.spec_window_size() == window_size
                    &&& r->Ok_0.spec_fft_size() == fft_size
                    &&& r->Ok_0.spec_filter_size() == filter_size
                },
            },
    {
        match validate_detector(window_size, fft_size) {
            Err(e) => Err(e),
            Ok(()) => Ok(OnsetSegmentation { window_size, fft_size, filter_size }),
        }
    }

    /// The filter size that the engine is made for.
    pub fn max_filter_size(&self) -> (r: usize)
        ensures
            r == filter_capacity(self.spec_filter_size()),
    {
        if self.filter_size < MIN_FILTER_CAPACITY {
            MIN_FILTER_CAPACITY
        } else {
            self.filter_size
        }
    }

    /// Tells whether `input_len` samples are enough for one step that looks
    /// `frame_delta` samples back: `window_size + frame_delta` at least.
    pub fn accepts(&self, input_len: usize, frame_delta: usize) -> (r: bool)
        ensures
            r == (input_len >= self.spec_window_size() + frame_delta),
    {
        input_len >= self.window_size && input_len - self.window_size >= frame_delta
    }

    /// Takes `window_size + frame_delta` samples at least and names the call
    /// to make.
    pub fn process_frame(
        &self,
        input: &[Real],
        function: OnsetFunction,
        filter_size: usize,
        threshold: Real,
        debounce: usize,
        frame_delta: usize,
    ) -> (call: OnsetSegCall)
        requires
            input@.len() >= self.spec_window_size() + frame_delta,
        ensures
            call.input_len == input@.len(),
            call.function == function,
            call.filter_size == filter_size,
            call.threshold == threshold,
            call.debounce == debounce,
            call.frame_delta == frame_delta,
    {
        OnsetSegCall { input_len: input.len(), function, filter_size, threshold, debounce, frame_delta }
    }

    /// The length of the analysis window, in samples.
    #[verifier::when_used_as_spec(spec_window_size)]
    pub fn window_size(&self) -> (r: usize)
        ensures
            r == self.spec_window_size(),
            r > 0,
    {
        proof {
            use_type_invariant(self);
        }
        self.window_size
    }

    /// The length of the transform, in points.
    #[verifier::when_used_as_spec(spec_fft_size)]
    pub fn fft_size(&self) -> (r: usize)
        ensures
            r == self.spec_fft_size(),
            r >= self.spec_window_size(),
    {
        proof {
            use_type_invariant(self);
        }
        self.fft_size
    }
}

} // verus!
