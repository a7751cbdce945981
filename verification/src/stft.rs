//! The short-time Fourier transform and its inverse, frame by frame: the
//! settings of the two engines and the shapes of what they exchange.

use vstd::prelude::*;
use crate::binary64::Real;
use crate::error::Error;
use crate::matrix::{zero_buffer, zeros, FrameCall};

verus! {

/// The window function of a transform.
#[derive(Debug, Clone, Copy, PartialEq, Eq, Structural)]
pub enum WindowType {
    Hann,
    Hamming,
    Blackman,
    Rectangular,
}

impl WindowType {
    /// The number by which the engine knows this window.
    pub open spec fn spec_code(self) -> int {
        match self {
            WindowType::Hann => 0,
            WindowType::Hamming => 1,
            WindowType::Blackman => 2,
            WindowType::Rectangular => 3,
        }
    }

    /// The number by which the engine knows this window.
    pub fn code(self) -> (c: isize)
        ensures
            c == self.spec_code(),
    {
        match self {
            WindowType::Hann => 0,
            WindowType::Hamming => 1,
            WindowType::Blackman => 2,
            WindowType::Rectangular => 3,
        }
    }
}

impl Default for WindowType {
    /// The Hann window.
    fn default() -> (w: Self)
        ensures
            w == WindowType::Hann,
    {
        WindowType::Hann
    }
}

/// One complex spectral frame, as interleaved pairs
/// `[re0, im0, re1, im1, ...]`.
#[derive(Debug, Clone)]
pub struct ComplexSpectrum {
    /// The interleaved real and imaginary parts.
    pub data: Vec<Real>,
    /// The number of complex bins.
    pub num_bins: usize,
}

impl ComplexSpectrum {
    /// Whether the frame holds a pair for each bin.
    pub open spec fn well_formed(&self) -> bool {
        self.data@.len() == 2 * self.num_bins
    }

    /// A frame of `num_bins` bins that are all zero.
    pub fn zeros(num_bins: usize) -> (s: Self)
        requires
            2 * num_bins <= usize::MAX,
        ensures
            s.num_bins == num_bins,
            s.data@ == zeros((2 * num_bins) as nat),
            s.well_formed(),
    {
        ComplexSpectrum { data: zero_buffer(num_bins * 2), num_bins }
    }

    /// The real part of bin `i`.
    pub fn re(&self, i: usize) -> (r: Real)
        requires
            2 * i < self.data@.len(),
        ensures
            r == self.data@[2 * i],
    {
        let len: usize = self.data.len();
        assert(2 * i < len);
        self.data[i * 2]
    }

    /// The imaginary part of bin `i`.
    pub fn im(&self, i: usize) -> (r: Real)
        requires
            2 * i + 1 < self.data@.len(),
        ensures
            r == self.data@[2 * i + 1],
    {
        let len: usize = self.data.len();
        assert(2 * i + 1 < len);
        self.data[i * 2 + 1]
    }
}

/// The first rule, if any, that the sizes of a transform break: a window
/// that is not empty, a transform at least as long as the window, and a hop
/// that advances.
pub open spec fn sizes_fault(window_size: usize, fft_size: usize, hop_size: usize) -> Option<Error> {
    if window_size == 0 {
        Some(Error::WindowSizeZero)
    } else if fft_size < window_size {
        Some(Error::FftSizeBelowWindow)
    } else if hop_size == 0 {
        Some(Error::HopSizeZero)
    } else {
        None
    }
}

/// Checks the sizes of a transform against `sizes_fault`.
pub fn validate_sizes(window_size: usize, fft_size: usize, hop_size: usize) -> (r: Result<(), Error>)
    ensures
        r == match sizes_fault(window_size, fft_size, hop_size) {
            Some(e) => Err::<(), Error>(e),
            None => Ok(()),
        },
{
    if window_size == 0 {
        return Err(Error::WindowSizeZero);
    }
    if fft_size < window_size {
        return Err(Error::FftSizeBelowWindow);
    }
    if hop_size == 0 {
        return Err(Error::HopSizeZero);
    }
    Ok(())
}

/// The number of bins of a transform of `fft_size` points.
pub open spec fn bins_of(fft_size: usize) -> int {
    fft_size / 2 + 1
}

/// The settings of a forward transform: windowed frames in, complex spectra
/// out.
#[derive(Debug, Clone, Copy)]
pub struct Stft {
    window_size: usize,
    fft_size: usize,
    hop_size: usize,
    num_bins: usize,
    window_type: WindowType,
}

impl Stft {
    #[verifier::type_invariant]
    spec fn valid(&self) -> bool {
        &&& sizes_fault(self.window_size, self.fft_size, self.hop_size) is None
        &&& self.num_bins == bins_of(self.fft_size)
    }

    /// The length of the analysis window, in samples.
    pub closed spec fn spec_window_size(&self) -> usize {
        self.window_size
    }

    /// The length of the transform, in points.
    pub closed spec fn spec_fft_size(&self) -> usize {
        self.fft_size
    }

    /// The hop between successive frames, in samples.
    pub closed spec fn spec_hop_size(&self) -> usize {
        self.hop_size
    }

    /// The number of complex bins.
    pub closed spec fn spec_num_bins(&self) -> usize {
        self.num_bins
    }

    /// The window function.
    pub closed spec fn spec_window_type(&self) -> WindowType {
        self.window_type
    }

    /// Accepts sizes that break no rule. The transform has
    /// `fft_size / 2 + 1` bins.
    pub fn new(window_size: usize, fft_size: usize, hop_size: usize, window_type: WindowType) -> (r:
        Result<Self, Error>)
        ensures
            match sizes_fault(window_size, fft_size, hop_size) {
                Some(e) => r is Err && r->Err_0 == e,
                None => {
                    &&& r is Ok
                    &&& r->Ok_0.spec_window_size() == window_size
                    &&& r->Ok_0.spec_fft_size() == fft_size
                    &&& r->Ok_0.spec_hop_size() == hop_size
                    &&& r->Ok_0.spec_num_bins() == bins_of(fft_size)
                    &&& r->Ok_0.spec_window_type() == window_type
                },
            },
    {
        match validate_sizes(window_size, fft_size, hop_size) {
            Err(e) => Err(e),
            Ok(()) => Ok(
                Stft { window_size, fft_size, hop_size, num_bins: fft_size / 2 + 1, window_type },
            ),
        }
    }

    /// Takes a frame of exactly `window_size` samples and names the call to
    /// make: the engine writes a pair of values for each bin.
    pub fn process_frame(&self, frame: &[Real]) -> (call: FrameCall)
        requires
            frame@.len() == self.spec_window_size(),
            2 * self.spec_num_bins() <= usize::MAX,
        ensures
            call.input_len == self.spec_window_size(),
            call.output_len == 2 * self.spec_num_bins(),
    {
        FrameCall { input_len: frame.len(), output_len: self.num_bins * 2 }
    }

    /// The length of the analysis window, in samples.
    #[verifier::when_used_as_spec(spec_window_size)]
    pub fn window_size(&self) -> (r: usize)
        ensures
            r == self.spec_window_size(),
            r > 0,
    {
        proof {
            use_type_invariant(self);
        }
        self.window_size
    }

    /// The length of the transform, in points.
    #[verifier::when_used_as_spec(spec_fft_size)]
    pub fn fft_size(&self) -> (r: usize)
        ensures
            r == self.spec_fft_size(),
            r >= self.spec_window_size(),
    {
        proof {
            use_type_invariant(self);
        }
        self.fft_size
    }

    /// The hop between successive frames, in samples.
    #[verifier::when_used_as_spec(spec_hop_size)]
    pub fn hop_size(&self) -> (r: usize)
        ensures
            r == self.spec_hop_size(),
            r > 0,
    {
        proof {
            use_type_invariant(self);
        }
        self.hop_size
    }

    /// The number of complex bins.
    #[verifier::when_used_as_spec(spec_num_bins)]
    pub fn num_bins(&self) -> (r: usize)
        ensures
            r == self.spec_num_bins(),
            r == bins_of(self.spec_fft_size()),
    {
        proof {
            use_type_invariant(self);
        }
        self.num_bins
    }

    /// The window function.
    #[verifier::when_used_as_spec(spec_window_type)]
    pub fn window_type(&self) -> (r: WindowType)
        ensures
            r == self.spec_window_type(),
    {
        self.window_type
    }
}

/// The settings of an inverse transform: complex spectra in, frames out.
#[derive(Debug, Clone, Copy)]
pub struct Istft {
    window_size: usize,
    fft_size: usize,
    hop_size: usize,
    num_bins: usize,
    window_type: WindowType,
}

impl Istft {
    #[verifier::type_invariant]
    spec fn valid(&self) -> bool {
        &&& sizes_fault(self.window_size, self.fft_size, self.hop_size) is None
        &&& self.num_bins == bins_of(self.fft_size)
    }

    /// The length of the analysis window, in samples.
    pub closed spec fn spec_window_size(&self) -> usize {
        self.window_size
    }

    /// The length of the transform, in points.
    pub closed spec fn spec_fft_size(&self) -> usize {
        self.fft_size
    }

    /// The hop between successive frames, in samples.
    pub closed spec fn spec_hop_size(&self) -> usize {
        self.hop_size
    }

    /// The number of complex bins.
    pub closed spec fn spec_num_bins(&self) -> usize {
        self.num_bins
    }

    /// The window function.
    pub closed spec fn spec_window_type(&self) -> WindowType {
        self.window_type
    }

    /// Accepts sizes that break no rule. The transform has
    /// `fft_size / 2 + 1` bins.
    pub fn new(window_size: usize, fft_size: usize, hop_size: usize, window_type: WindowType) -> (r:
        Result<Self, Error>)
        ensures
            match sizes_fault(window_size, fft_size, hop_size) {
                Some(e) => r is Err && r->Err_0 == e,
                None => {
                    &&& r is Ok
                    &&& r->Ok_0.spec_window_size() == window_size
                    &&& r->Ok_0.spec_fft_size() == fft_size
                    &&& r->Ok_0.spec_hop_size() == hop_size
                    &&& r->Ok_0.spec_num_bins() == bins_of(fft_size)
                    &&& r->Ok_0.spec_window_type() == window_type
                },
            },
    {
        match validate_sizes(window_size, fft_size, hop_size) {
            Err(e) => Err(e),
            Ok(()) => Ok(
                Istft { window_size, fft_size, hop_size, num_bins: fft_size / 2 + 1, window_type },
            ),
        }
    }

    /// Takes a spectrum of exactly `num_bins` bins, for an output of exactly
    /// `window_size` samples, and names the call to make.
    pub fn process_frame(&self, spectrum: &ComplexSpectrum, output_len: usize) -> (call: FrameCall)
        requires
            spectrum.num_bins == self.spec_num_bins(),
            output_len == self.spec_window_size(),
        ensures
            call.input_len == spectrum.data@.len(),
            call.output_len == self.spec_window_size(),
    {
        FrameCall { input_len: spectrum.data.len(), output_len }
    }

    /// The length of the analysis window, in samples.
    #[verifier::when_used_as_spec(spec_window_size)]
    pub fn window_size(&self) -> (r: usize)
        ensures
            r == self.spec_window_size(),
            r > 0,
    {
        proof {
            use_type_invariant(self);
        }
        self.window_size
    }

    /// The length of the transform, in points.
    #[verifier::when_used_as_spec(spec_fft_size)]
    pub fn fft_size(&self) -> (r: usize)
        ensures
            r == self.spec_fft_size(),
            r >= self.spec_window_size(),
    {
        proof {
            use_type_invariant(self);
        }
        self.fft_size
    }

    /// The hop between successive frames, in samples.
    #[verifier::when_used_as_spec(spec_hop_size)]
    pub fn hop_size(&self) -> (r: usize)
        ensures
            r == self.spec_hop_size(),
            r > 0,
    {
        proof {
            use_type_invariant(self);
        }
        self.hop_size
    }

    /// The number of complex bins.
    #[verifier::when_used_as_spec(spec_num_bins)]
    pub fn num_bins(&self) -> (r: usize)
        ensures
            r == self.spec_num_bins(),
            r == bins_of(self.spec_fft_size()),
    {
        proof {
            use_type_invariant(self);
        }
        self.num_bins
    }

    /// The window function.
    #[verifier::when_used_as_spec(spec_window_type)]
    pub fn window_type(&self) -> (r: WindowType)
        ensures
            r == self.spec_window_type(),
    {
        self.window_type
    }
}

} // verus!
