//! Mean and standard deviation over the last frames of a stream: the
//! settings of the engine and the shapes of what it exchanges.

use vstd::prelude::*;
use crate::binary64::Real;
use crate::error::Error;
use crate::matrix::FrameCall;

verus! {

/// The first rule, if any, that the sizes of a running statistic break: a
/// history of two frames at least, and frames that are not empty.
pub open spec fn history_fault(history_size: usize, input_size: usize) -> Option<Error> {
    if history_size < 2 {
        Some(Error::HistoryTooShort)
    } else if input_size == 0 {
        Some(Error::InputSizeZero)
    } else {
        None
    }
}

/// The settings of a running statistic.
#[derive(Debug, Clone, Copy)]
pub struct RunningStats {
    history_size: usize,
    input_size: usize,
}

impl RunningStats {
    #[verifier::type_invariant]
    spec fn valid(&self) -> bool {
        history_fault(self.history_size, self.input_size) is None
    }

    /// The number of frames that the history holds.
    pub closed spec fn spec_history_size(&self) -> usize {
        self.history_size
    }

    /// The length of an input frame.
    pub closed spec fn spec_input_size(&self) -> usize {
        self.input_size
    }

    /// Accepts sizes that break no rule.
    pub fn new(history_size: usize, input_size: usize) -> (r: Result<Self, Error>)
        ensures
            match history_fault(history_size, input_size) {
                Some(e) => r is Err && r->Err_0 == e,
                None => r is Ok && r->Ok_0.spec_history_size() == history_size
                    && r->Ok_0.spec_input_size() == input_size,
            },
    {
        if history_size < 2 {
            return Err(Error::HistoryTooShort);
        }
        if input_size == 0 {
            return Err(Error::InputSizeZero);
        }
        Ok(RunningStats { history_size, input_size })
    }

    /// Takes a frame of exactly `input_size` values and names the call to
    /// make: the engine writes as many means, and as many standard
    /// deviations.
    pub fn process(&self, input: &[Real]) -> (call: FrameCall)
        requires
            input@.len() == self.spec_input_size(),
        ensures
            call == (FrameCall {
                input_len: self.spec_input_size(),
                output_len: self.spec_input_size(),
            }),
    {
        FrameCall { input_len: input.len(), output_len: self.input_size }
    }

    /// The number of frames that the history holds.
    #[verifier::when_used_as_spec(spec_history_size)]
    pub fn history_size(&self) -> (r: usize)
        ensures
            r == self.spec_history_size(),
            r >= 2,
    {
        proof {
            use_type_invariant(self);
        }
        self.history_size
    }

    /// The length of an input frame.
    #[verifier::when_used_as_spec(spec_input_size)]
    pub fn input_size(&self) -> (r: usize)
        ensures
            r == self.spec_input_size(),
            r > 0,
    {
        proof {
            use_type_invariant(self);
        }
        self.input_size
    }
}

} // verus!
