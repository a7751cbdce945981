//! Transient segmentation on blocks of samples: the settings of the engine
//! and the shapes of what it exchanges.

use vstd::prelude::*;
use crate::binary64::Real;
use crate::error::Error;
use crate::matrix::FrameCall;

verus! {

/// The first rule, if any, that the sizes of a segmenter break: a model
/// order that is not zero, and a block and a padding that are both longer
/// than the order.
pub open spec fn transient_fault(order: usize, block_size: usize, pad_size: usize) -> Option<Error> {
    if order == 0 {
        Some(Error::OrderZero)
    } else if block_size <= order {
        Some(Error::BlockSizeTooSmall)
    } else if pad_size <= order {
        Some(Error::PadSizeTooSmall)
    } else {
        None
    }
}

/// The thresholds and lengths by which transients are told from the rest.
#[derive(Debug, Clone, Copy)]
pub struct DetectionParameters {
    pub power: Real,
    pub thresh_hi: Real,
    pub thresh_lo: Real,
    pub half_window: usize,
    pub hold: usize,
    pub min_segment: usize,
}

/// The settings of a transient segmenter, with the two sizes that the
/// engine derives from them.
#[derive(Debug, Clone, Copy)]
pub struct TransientSegmentation {
    order: usize,
    block_size: usize,
    pad_size: usize,
    hop_size: usize,
    input_size: usize,
}

impl TransientSegmentation {
    #[verifier::type_invariant]
    spec fn valid(&self) -> bool {
        transient_fault(self.order, self.block_size, self.pad_size) is None
    }

    /// The model order, the block size and the padding.
    pub closed spec fn spec_sizes(&self) -> (usize, usize, usize) {
        (self.order, self.block_size, self.pad_size)
    }

    /// The hop between successive frames, in samples.
    pub closed spec fn spec_hop_size(&self) -> usize {
        self.hop_size
    }

    /// The length of an input frame.
    pub closed spec fn spec_input_size(&self) -> usize {
        self.input_size
    }

    /// Checks the sizes of a segmenter against `transient_fault`.
    pub fn validate(order: usize, block_size: usize, pad_size: usize) -> (r: Result<(), Error>)
        ensures
            r == match transient_fault(order, block_size, pad_size) {
                Some(e) => Err::<(), Error>(e),
                None => Ok(()),
            },
    {
        if order == 0 {
            return Err(Error::OrderZero);
        }
        if block_size <= order {
            return Err(Error::BlockSizeTooSmall);
        }
        if pad_size <= order {
            return Err(Error::PadSizeTooSmall);
        }
        Ok(())
    }

    /// Accepts sizes that break no rule, together with the hop size and the
    /// input size that the engine reports for them.
    pub fn new(order: usize, block_size: usize, pad_size: usize, hop_size: usize, input_size: usize) -> (r:
        Result<Self, Error>)
        ensures
            match transient_fault(order, block_size, pad_size) {
                Some(e) => r is Err && r->Err_0 == e,
                None => {
                    &&& r is Ok
                    &&& r->Ok_0.spec_sizes() == (order, block_size, pad_size)
                    &&& r->Ok_0.spec_hop_size() == hop_size
                    &&& r->Ok_0.spec_input_size() == input_size
                },
            },
    {
        match Self::validate(order, block_size, pad_size) {
            Err(e) => Err(e),
            Ok(()) => Ok(TransientSegmentation { order, block_size, pad_size, hop_size, input_size }),
        }
    }

    /// Gathers the detection parameters for the engine. Any values are
    /// accepted.
    pub fn set_detection_parameters(
        &self,
        power: Real,
        thresh_hi: Real,
        thresh_lo: Real,
        half_window: usize,
        hold: usize,
        min_segment: usize,
    ) -> (p: DetectionParameters)
        ensures
            p.power == power,
            p.thresh_hi == thresh_hi,
            p.thresh_lo == thresh_lo,
            p.half_window == half_window,
            p.hold == hold,
            p.min_segment == min_segment,
    {
        DetectionParameters { power, thresh_hi, thresh_lo, half_window, hold, min_segment }
    }

    /// Takes exactly `input_size` samples and names the call to make: the
    /// engine writes one value for each sample of a hop.
    pub fn process(&self, input: &[Real]) -> (call: FrameCall)
        requires
            input@.len() == self.spec_input_size(),
        ensures
            call == (FrameCall {
                input_len: self.spec_input_size(),
                output_len: self.spec_hop_size(),
            }),
    {
        FrameCall { input_len: input.len(), output_len: self.hop_size }
    }

    /// The hop between successive frames, in samples.
    #[verifier::when_used_as_spec(spec_hop_size)]
    pub fn hop_size(&self) -> (r: usize)
        ensures
            r == self.spec_hop_size(),
    {
        self.hop_size
    }

    /// The length of an input frame.
    #[verifier::when_used_as_spec(spec_input_size)]
    pub fn input_size(&self) -> (r: usize)
        ensures
            r == self.spec_input_size(),
    {
        self.input_size
    }

    /// The model order, the block size and the padding.
    #[verifier::when_used_as_spec(spec_sizes)]
    pub fn sizes(&self) -> (r: (usize, usize, usize))
        ensures
            r == self.spec_sizes(),
            r.0 > 0,
            r.1 > r.0,
            r.2 > r.0,
    {
        proof {
            use_type_invariant(self);
        }
        (self.order, self.block_size, self.pad_size)
    }
}

} // verus!
