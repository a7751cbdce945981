//! Interpolation between two signals by optimal transport of their spectra:
//! the settings of the engine and the shapes of what it exchanges.

use vstd::prelude::*;
use vstd::slice::slice_subrange;
use crate::binary64::{clamp, clamped, nan, within, Real, ONE, ZERO};
use crate::error::Error;
use crate::stft::{sizes_fault, validate_sizes};

verus! {

/// One step of the interpolation.
#[derive(Debug, Clone, Copy)]
pub struct TransportCall {
    /// The number of samples of each of the two inputs.
    pub input_len: usize,
    /// How far the result lies from the first input towards the second, in
    /// `[0, 1]`.
    pub weight: Real,
    /// The number of values that the engine writes: a frame of audio, then
    /// the squared window of the same length.
    pub output_len: usize,
}

/// The settings of an interpolation.
#[derive(Debug, Clone, Copy)]
pub struct AudioTransport {
    window_size: usize,
    fft_size: usize,
    hop_size: usize,
}

impl AudioTransport {
    #[verifier::type_invariant]
    spec fn valid(&self) -> bool {
        sizes_fault(self.window_size, self.fft_size, self.hop_size) is None
    }

    /// The length of the analysis window, in samples.
    pub closed spec fn spec_window_size(&self) -> usize {
        self.window_size
    }

    /// The length of the transform, in points.
    pub closed spec fn spec_fft_size(&self) -> usize {
        self.fft_size
    }

    /// The hop between successive frames, in samples.
    pub closed spec fn spec_hop_size(&self) -> usize {
        self.hop_size
    }

    /// Accepts sizes that break no rule.
    pub fn new(window_size: usize, fft_size: usize, hop_size: usize) -> (r: Result<Self, Error>)
        ensures
            match sizes_fault(window_size, fft_size, hop_size) {
                Some(e) => r is Err && r->Err_0 == e,
                None => {
                    &&& r is Ok
                    &&& r->Ok_0.spec_window_size() == window_size
                    &&& r->Ok_0.spec_fft_size() == fft_size
                    &&& r->Ok_0.spec_hop_size() == hop_size
                },
            },
    {
        match validate_sizes(window_size, fft_size, hop_size) {
            Err(e) => Err(e),
            Ok(()) => Ok(AudioTransport { window_size, fft_size, hop_size }),
        }
    }

    /// Takes two frames of exactly `window_size` samples and a weight, and
    /// names the call to make. The weight is brought into `[0, 1]`: below 0
    /// it counts as 0, above 1 as 1.
    pub fn process_frame(&self, in1: &[Real], in2: &[Real], weight: Real) -> (call: TransportCall)
        requires
            in1@.len() == self.spec_window_size(),
            in2@.len() == self.spec_window_size(),
            2 * self.spec_window_size() <= usize::MAX,
        ensures
            call.input_len == self.spec_window_size(),
            call.weight == clamped(weight, ZERO, ONE),
            !nan(weight) ==> within(call.weight, ZERO, ONE),
            call.output_len == 2 * self.spec_window_size(),
    {
        TransportCall {
            input_len: in1.len(),
            weight: clamp(weight, ZERO, ONE),
            output_len: 2 * self.window_size,
        }
    }

    /// Parts what the engine wrote into the frame of audio and the squared
    /// window.
    pub fn split<'a>(&self, output: &'a [Real]) -> (r: (&'a [Real], &'a [Real]))
        requires
            output@.len() == 2 * self.spec_window_size(),
        ensures
            r.0@ == output@.subrange(0, self.spec_window_size() as int),
            r.1@ == output@.subrange(
                self.spec_window_size() as int,
                2 * self.spec_window_size(),
            ),
    {
        let len: usize = output.len();
        (
            slice_subrange(output, 0, self.window_size),
            slice_subrange(output, self.window_size, len),
        )
    }

    /// The length of the analysis window, in samples.
    #[verifier::when_used_as_spec(spec_window_size)]
    pub fn window_size(&self) -> (r: usize)
        ensures
            r == self.spec_window_size(),
            r > 0,
    {
        proof {
            use_type_invariant(self);
        }
        self.window_size
    }

    /// The length of the transform, in points.
    #[verifier::when_used_as_spec(spec_fft_size)]
    pub fn fft_size(&self) -> (r: usize)
        ensures
            r == self.spec_fft_size(),
            r >= self.spec_window_size(),
    {
        proof {
            use_type_invariant(self);
        }
        self.fft_size
    }

    /// The hop between successive frames, in samples.
    #[verifier::when_used_as_spec(spec_hop_size)]
    pub fn hop_size(&self) -> (r: usize)
        ensures
            r == self.spec_hop_size(),
            r > 0,
    {
        proof {
            use_type_invariant(self);
        }
        self.hop_size
    }
}

} // verus!
