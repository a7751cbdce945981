//! Z-score scaling: each column is shifted by its fitted mean and divided by
//! its fitted standard deviation.

use vstd::prelude::*;
use crate::binary64::Real;
use crate::error::Error;
use crate::matrix::{matrix_fault, validate_matrix};
use crate::scaler::{process_internal, transform_fault, ScaleCall};

verus! {

/// A z-score scaler for row-major point matrices.
#[derive(Debug)]
pub struct Standardize {
    cols: Option<usize>,
}

impl Standardize {
    #[verifier::type_invariant]
    spec fn valid(&self) -> bool {
        &&& true
        &&& self.cols matches Some(c) ==> c > 0
    }

    /// A z-score scaler has no settings: any two agree.
    pub open spec fn same_settings(&self, other: Self) -> bool {
        true
    }

    /// The number of columns that the scaler is bound to, once it is fitted.
    pub closed spec fn fitted_cols(&self) -> Option<usize> {
        self.cols
    }

    /// Whether the scaler is fitted.
    pub open spec fn fitted(&self) -> bool {
        self.fitted_cols() is Some
    }

    /// Makes an unfitted scaler. This cannot fail.
    pub fn new() -> (r: Result<Self, Error>)
        ensures
            r is Ok,
            !r->Ok_0.fitted(),
    {
        Ok(Standardize { cols: None })
    }

    /// Binds the scaler to the columns of `data`, a matrix of `rows` rows and
    /// `cols` columns, neither of them zero. The engine then takes its
    /// parameters from the same matrix. A refused matrix leaves the scaler
    /// as it was.
    pub fn fit(&mut self, data: &[Real], rows: usize, cols: usize) -> (r: Result<(), Error>)
        ensures
            final(self).same_settings(*old(self)),
            match matrix_fault(data@.len() as int, rows as int, cols as int) {
                Some(e) => r == Err::<(), Error>(e) && final(self).fitted_cols() == old(
                    self,
                ).fitted_cols(),
                None => r == Ok::<(), Error>(()) && final(self).fitted_cols() == Some(cols),
            },
    {
        proof {
            use_type_invariant(&*self);
        }
        match validate_matrix(data, rows, cols) {
            Err(e) => Err(e),
            Ok(()) => {
                self.cols = Some(cols);
                Ok(())
            },
        }
    }

    /// Checks a matrix that is to be scaled and names the call to make. An
    /// unfitted scaler refuses every matrix.
    pub fn transform(&self, data: &[Real], rows: usize, cols: usize) -> (r: Result<
        ScaleCall,
        Error,
    >)
        ensures
            !self.fitted() ==> r == Err::<ScaleCall, Error>(Error::StandardizerNotFitted),
            r == match transform_fault(
                self.fitted_cols(),
                Error::StandardizerNotFitted,
                data@.len() as int,
                rows as int,
                cols as int,
            ) {
                Some(e) => Err::<ScaleCall, Error>(e),
                None => Ok((ScaleCall { rows, cols, inverse: false })),
            },
    {
        process_internal(self.cols, Error::StandardizerNotFitted, data, rows, cols, false)
    }

    /// Checks a matrix of scaled data that is to be taken back and names the
    /// call to make. An unfitted scaler refuses every matrix.
    pub fn inverse_transform(&self, data: &[Real], rows: usize, cols: usize) -> (r: Result<
        ScaleCall,
        Error,
    >)
        ensures
            !self.fitted() ==> r == Err::<ScaleCall, Error>(Error::StandardizerNotFitted),
            r == match transform_fault(
                self.fitted_cols(),
                Error::StandardizerNotFitted,
                data@.len() as int,
                rows as int,
                cols as int,
            ) {
                Some(e) => Err::<ScaleCall, Error>(e),
                None => Ok((ScaleCall { rows, cols, inverse: true })),
            },
    {
        process_internal(self.cols, Error::StandardizerNotFitted, data, rows, cols, true)
    }

    /// Fits on a matrix and names the call that scales the same matrix. A
    /// refused matrix leaves the scaler as it was.
    pub fn fit_transform(&mut self, data: &[Real], rows: usize, cols: usize) -> (r: Result<
        ScaleCall,
        Error,
    >)
        ensures
            final(self).same_settings(*old(self)),
            match matrix_fault(data@.len() as int, rows as int, cols as int) {
                Some(e) => r == Err::<ScaleCall, Error>(e) && final(self).fitted_cols() == old(
                    self,
                ).fitted_cols(),
                None => r == Ok::<ScaleCall, Error>((ScaleCall { rows, cols, inverse: false }))
                    && final(self).fitted_cols() == Some(cols),
            },
    {
        match self.fit(data, rows, cols) {
            Err(e) => Err(e),
            Ok(()) => self.transform(data, rows, cols),
        }
    }

    /// Tells whether the scaler is fitted.
    #[verifier::when_used_as_spec(fitted)]
    pub fn is_fitted(&self) -> (r: bool)
        ensures
            r == self.fitted(),
    {
        self.cols.is_some()
    }
}

} // verus!
