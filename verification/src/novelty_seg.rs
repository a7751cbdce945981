//! Novelty segmentation on feature frames: the settings of the engine and
//! the shape of what it reads.

use vstd::prelude::*;
use crate::binary64::Real;
use crate::error::Error;

verus! {

/// Whether a size is odd, and so not zero.
pub open spec fn odd(n: usize) -> bool {
    n % 2 == 1
}

/// The first rule, if any, that the sizes of a segmenter break: an odd
/// kernel, frames that are not empty, and an odd filter.
pub open spec fn novelty_fault(kernel_size: usize, n_dims: usize, filter_size: usize) -> Option<
    Error,
> {
    if !odd(kernel_size) {
        Some(Error::KernelSizeNotOdd)
    } else if n_dims == 0 {
        Some(Error::DimsZero)
    } else if !odd(filter_size) {
        Some(Error::FilterSizeNotOdd)
    } else {
        None
    }
}

/// One step of a segmenter.
#[derive(Debug, Clone, Copy)]
pub struct NoveltyCall {
    pub input_len: usize,
    pub threshold: Real,
    pub min_slice_length: usize,
}

/// The settings of a novelty segmenter.
#[derive(Debug, Clone, Copy)]
pub struct NoveltySegmentation {
    kernel_size: usize,
    n_dims: usize,
    filter_size: usize,
}

impl NoveltySegmentation {
    #[verifier::type_invariant]
    spec fn valid(&self) -> bool {
        novelty_fault(self.kernel_size, self.n_dims, self.filter_size) is None
    }

    /// The size of the kernel.
    pub closed spec fn spec_kernel_size(&self) -> usize {
        self.kernel_size
    }

    /// The number of features of a frame.
    pub closed spec fn spec_n_dims(&self) -> usize {
        self.n_dims
    }

    /// The size of the smoothing filter.
    pub closed spec fn spec_filter_size(&self) -> usize {
        self.filter_size
    }

    /// Accepts sizes that break no rule.
    pub fn new(kernel_size: usize, n_dims: usize, filter_size: usize) -> (r: Result<Self, Error>)
        ensures
            match novelty_fault(kernel_size, n_dims, filter_size) {
                Some(e) => r is Err && r->Err_0 == e,
                None => {
                    &&& r is Ok
                    &&& r->Ok_0.spec_kernel_size() == kernel_size
                    &&& r->Ok_0.spec_n_dims() == n_dims
                    &&& r->Ok_0.spec_filter_size() == filter_size
                },
            },
    {
        if kernel_size == 0 || kernel_size % 2 == 0 {
            return Err(Error::KernelSizeNotOdd);
        }
        if n_dims == 0 {
            return Err(Error::DimsZero);
        }
        if filter_size == 0 || filter_size % 2 == 0 {
            return Err(Error::FilterSizeNotOdd);
        }
        Ok(NoveltySegmentation { kernel_size, n_dims, filter_size })
    }

    /// Takes a frame of exactly `n_dims` features and names the call to
    /// make.
    pub fn process_frame(&self, input: &[Real], threshold: Real, min_slice_length: usize) -> (call:
        NoveltyCall)
        requires
            input@.len() == self.spec_n_dims(),
        ensures
            call.input_len == self.spec_n_dims(),
            call.threshold == threshold,
            call.min_slice_length == min_slice_length,
    {
        NoveltyCall { input_len: input.len(), threshold, min_slice_length }
    }

    /// The number of features of a frame.
    #[verifier::when_used_as_spec(spec_n_dims)]
    pub fn n_dims(&self) -> (r: usize)
        ensures
            r == self.spec_n_dims(),
            r > 0,
    {
        proof {
            use_type_invariant(self);
        }
        self.n_dims
    }

    /// The kernel size and the filter size. Both are odd.
    pub fn sizes(&self) -> (r: (usize, usize))
        ensures
            r == (self.spec_kernel_size(), self.spec_filter_size()),
            odd(r.0),
            odd(r.1),
    {
        proof {
            use_type_invariant(self);
        }
        (self.kernel_size, self.filter_size)
    }
}

} // verus!
