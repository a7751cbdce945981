//! Onset detection functions on spectral frames: the settings of the engine
//! and the shape of what it reads.

use vstd::prelude::*;
use crate::binary64::Real;
use crate::error::Error;

verus! {

/// The spectral change that is measured.
#[derive(Debug, Clone, Copy, PartialEq, Eq, Structural)]
pub enum OnsetFunction {
    PowerSpectrum,
    HighFrequency,
    ComplexDomain,
    RectifiedComplex,
    PhaseDev,
    WeightedPhaseDev,
    ModKL,
    ItakuraSaito,
    Cosine,
    NormPower,
}

impl OnsetFunction {
    /// The number by which the engine knows this function.
    pub open spec fn spec_code(self) -> int {
        match self {
            OnsetFunction::PowerSpectrum => 0,
            OnsetFunction::HighFrequency => 1,
            OnsetFunction::ComplexDomain => 2,
            OnsetFunction::RectifiedComplex => 3,
            OnsetFunction::PhaseDev => 4,
            OnsetFunction::WeightedPhaseDev => 5,
            OnsetFunction::ModKL => 6,
            OnsetFunction::ItakuraSaito => 7,
            OnsetFunction::Cosine => 8,
            OnsetFunction::NormPower => 9,
        }
    }

    /// The number by which the engine knows this function.
    pub fn code(self) -> (c: isize)
        ensures
            c == self.spec_code(),
    {
        match self {
            OnsetFunction::PowerSpectrum => 0,
            OnsetFunction::HighFrequency => 1,
            OnsetFunction::ComplexDomain => 2,
            OnsetFunction::RectifiedComplex => 3,
            OnsetFunction::PhaseDev => 4,
            OnsetFunction::WeightedPhaseDev => 5,
            OnsetFunction::ModKL => 6,
            OnsetFunction::ItakuraSaito => 7,
            OnsetFunction::Cosine => 8,
            OnsetFunction::NormPower => 9,
        }
    }
}

impl Default for OnsetFunction {
    /// The change of the power spectrum.
    fn default() -> (f: Self)
        ensures
            f == OnsetFunction::PowerSpectrum,
    {
        OnsetFunction::PowerSpectrum
    }
}

/// The smallest filter that an engine is made for.
pub const MIN_FILTER_CAPACITY: usize = 3;

/// The first rule, if any, that the sizes of a detector break: a window that
/// is not empty, and a transform at least as long as the window.
pub open spec fn detector_fault(window_size: usize, fft_size: usize) -> Option<Error> {
    if window_size == 0 {
        Some(Error::WindowSizeZero)
    } else if fft_size < window_size {
        Some(Error::FftSizeBelowWindow)
    } else {
        None
    }
}

/// Checks the sizes of a detector against `detector_fault`.
pub fn validate_detector(window_size: usize, fft_size: usize) -> (r: Result<(), Error>)
    ensures
        r == match detector_fault(window_size, fft_size) {
            Some(e) => Err::<(), Error>(e),
            None => Ok(()),
        },
{
    if window_size == 0 {
        return Err(Error::WindowSizeZero);
    }
    if fft_size < window_size {
        return Err(Error::FftSizeBelowWindow);
    }
    Ok(())
}

/// The filter size that an engine is made for: the one asked for, and three
/// at least.
pub open spec fn filter_capacity(filter_size: usize) -> usize {
    if filter_size < MIN_FILTER_CAPACITY {
        MIN_FILTER_CAPACITY
    } else {
        filter_size
    }
}

/// One step of a detector: what is measured on a frame, and how.
#[derive(Debug, Clone, Copy)]
pub struct OnsetCall {
    pub input_len: usize,
    pub function: OnsetFunction,
    pub filter_size: usize,
    pub frame_delta: usize,
}

/// The settings of an onset detection function.
#[derive(Debug, Clone, Copy)]
pub struct OnsetDetectionFunctions {
    window_size: usize,
    fft_size: usize,
    filter_size: usize,
}

impl OnsetDetectionFunctions {
    #[verifier::type_invariant]
    spec fn valid(&self) -> bool {
        detector_fault(self.window_size, self.fft_size) is None
    }

    /// The length of the analysis window, in samples.
    pub closed spec fn spec_window_size(&self) -> usize {
        self.window_size
    }

    /// The length of the transform, in points.
    pub closed spec fn spec_fft_size(&self) -> usize {
        self.fft_size
    }

    /// The size of the smoothing filter.
    pub closed spec fn spec_filter_size(&self) -> usize {
        self.filter_size
    }

    /// Accepts sizes that break no rule.
    pub fn new(window_size: usize, fft_size: usize, filter_size: usize) -> (r: Result<Self, Error>)
        ensures
            match detector_fault(window_size, fft_size) {
                Some(e) => r is Err && r->Err_0 == e,
                None => {
                    &&& r is Ok
                    &&& r->Ok_0.spec_window_size() == window_size
                    &&& r->Ok_0.spec_fft_size() == fft_size
                    &&& r->Ok_0.spec_filter_size() == filter_size
                },
            },
    {
        match validate_detector(window_size, fft_size) {
            Err(e) => Err(e),
            Ok(()) => Ok(OnsetDetectionFunctions { window_size, fft_size, filter_size }),
        }
    }

    /// The filter size that the engine is made for.
    pub fn max_filter_size(&self) -> (r: usize)
        ensures
            r == filter_capacity(self.spec_filter_size()),
    {
        if self.filter_size < MIN_FILTER_CAPACITY {
            MIN_FILTER_CAPACITY
        } else {
            self.filter_size
        }
    }

    /// Tells whether `input_len` samples are enough for one step that looks
    /// `frame_delta` samples back: `window_size + frame_delta` at least.
    pub fn accepts(&self, input_len: usize, frame_delta: usize) -> (r: bool)
        ensures
            r == (input_len >= self.spec_window_size() + frame_delta),
    {
        input_len >= self.window_size && input_len - self.window_size >= frame_delta
    }

    /// Takes `window_size + frame_delta` samples at least and names the call
    /// to make.
    pub fn process_frame(
        &self,
        input: &[Real],
        function: OnsetFunction,
        filter_size: usize,
        frame_delta: usize,
    ) -> (call: OnsetCall)
        requires
            input@.len() >= self.spec_window_size() + frame_delta,
        ensures
            call.input_len == input@.len(),
            call.function == function,
            call.filter_size == filter_size,
            call.frame_delta == frame_delta,
    {
        OnsetCall { input_len: input.len(), function, filter_size, frame_delta }
    }

    /// The length of the analysis window, in samples.
    #[verifier::when_used_as_spec(spec_window_size)]
    pub fn window_size(&self) -> (r: usize)
        ensures
            r == self.spec_window_size(),
            r > 0,
    {
        proof {
            use_type_invariant(self);
        }
        self.window_size
    }

    /// The length of the transform, in points.
    #[verifier::when_used_as_spec(spec_fft_size)]
    pub fn fft_size(&self) -> (r: usize)
        ensures
            r == self.spec_fft_size(),
            r >= self.spec_window_size(),
    {
        proof {
            use_type_invariant(self);
        }
        self.fft_size
    }
}

} // verus!
