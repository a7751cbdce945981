//! Mel-band energies of a magnitude spectrum: the settings of the filter
//! bank and the shape of what it exchanges.

use vstd::prelude::*;
use crate::binary64::{at_most, le, Real, ZERO};
use crate::error::Error;
use crate::matrix::FrameCall;

verus! {

/// The first rule, if any, that the settings of a filter bank break: two
/// bands at least, a spectrum that is not empty, a lower edge below the
/// upper one, a sample rate that is not zero or below, and a window that is
/// not empty.
pub open spec fn bank_fault(
    n_bands: usize,
    n_bins: usize,
    lo_hz: Real,
    hi_hz: Real,
    sample_rate: Real,
    window_size: usize,
) -> Option<Error> {
    if n_bands < 2 {
        Some(Error::TooFewBands)
    } else if n_bins == 0 {
        Some(Error::BinsZero)
    } else if le(hi_hz, lo_hz) {
        Some(Error::BandEdgesUnordered)
    } else if le(sample_rate, ZERO) {
        Some(Error::SampleRateNotPositive)
    } else if window_size == 0 {
        Some(Error::WindowSizeZero)
    } else {
        None
    }
}

/// The settings of a mel filter bank.
#[derive(Debug, Clone, Copy)]
pub struct MelBands {
    n_bins: usize,
    n_bands: usize,
    lo_hz: Real,
    hi_hz: Real,
    sample_rate: Real,
    window_size: usize,
}

impl MelBands {
    #[verifier::type_invariant]
    spec fn valid(&self) -> bool {
        bank_fault(
            self.n_bands,
            self.n_bins,
            self.lo_hz,
            self.hi_hz,
            self.sample_rate,
            self.window_size,
        ) is None
    }

    /// The number of bands.
    pub closed spec fn spec_n_bands(&self) -> usize {
        self.n_bands
    }

    /// The number of bins of the spectrum.
    pub closed spec fn spec_n_bins(&self) -> usize {
        self.n_bins
    }

    /// The band edges, the sample rate and the window size.
    pub closed spec fn spec_tuning(&self) -> (Real, Real, Real, usize) {
        (self.lo_hz, self.hi_hz, self.sample_rate, self.window_size)
    }

    /// Accepts settings that break no rule.
    pub fn new(
        n_bands: usize,
        n_bins: usize,
        lo_hz: Real,
        hi_hz: Real,
        sample_rate: Real,
        window_size: usize,
    ) -> (r: Result<Self, Error>)
        ensures
            match bank_fault(n_bands, n_bins, lo_hz, hi_hz, sample_rate, window_size) {
                Some(e) => r is Err && r->Err_0 == e,
                None => {
                    &&& r is Ok
                    &&& r->Ok_0.spec_n_bands() == n_bands
                    &&& r->Ok_0.spec_n_bins() == n_bins
                    &&& r->Ok_0.spec_tuning() == (lo_hz, hi_hz, sample_rate, window_size)
                },
            },
    {
        if n_bands < 2 {
            return Err(Error::TooFewBands);
        }
        if n_bins == 0 {
            return Err(Error::BinsZero);
        }
        if at_most(hi_hz, lo_hz) {
            return Err(Error::BandEdgesUnordered);
        }
        if at_most(sample_rate, ZERO) {
            return Err(Error::SampleRateNotPositive);
        }
        if window_size == 0 {
            return Err(Error::WindowSizeZero);
        }
        Ok(MelBands { n_bins, n_bands, lo_hz, hi_hz, sample_rate, window_size })
    }

    /// The longest transform that the engine is made for: `(n_bins - 1) * 2`
    /// points.
    pub fn max_fft_size(&self) -> (r: usize)
        requires
            (self.spec_n_bins() - 1) * 2 <= usize::MAX,
        ensures
            r == (self.spec_n_bins() - 1) * 2,
    {
        proof {
            use_type_invariant(self);
        }
        (self.n_bins - 1) * 2
    }

    /// Takes exactly `n_bins` magnitudes and names the call to make: the
    /// engine writes one value for each band.
    pub fn process_frame(&self, magnitudes: &[Real]) -> (call: FrameCall)
        requires
            magnitudes@.len() == self.spec_n_bins(),
        ensures
            call == (FrameCall { input_len: self.spec_n_bins(), output_len: self.spec_n_bands() }),
    {
        FrameCall { input_len: magnitudes.len(), output_len: self.n_bands }
    }

    /// The number of bands.
    #[verifier::when_used_as_spec(spec_n_bands)]
    pub fn n_bands(&self) -> (r: usize)
        ensures
            r == self.spec_n_bands(),
            r >= 2,
    {
        proof {
            use_type_invariant(self);
        }
        self.n_bands
    }

    /// The number of bins of the spectrum.
    #[verifier::when_used_as_spec(spec_n_bins)]
    pub fn n_bins(&self) -> (r: usize)
        ensures
            r == self.spec_n_bins(),
            r > 0,
    {
        proof {
            use_type_invariant(self);
        }
        self.n_bins
    }

    /// The band edges, the sample rate and the window size.
    #[verifier::when_used_as_spec(spec_tuning)]
    pub fn tuning(&self) -> (r: (Real, Real, Real, usize))
        ensures
            r == self.spec_tuning(),
            !le(r.1, r.0),
            !le(r.2, ZERO),
            r.3 > 0,
    {
        proof {
            use_type_invariant(self);
        }
        (self.lo_hz, self.hi_hz, self.sample_rate, self.window_size)
    }
}

} // verus!
