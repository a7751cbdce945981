//! Min-max scaling: each column is mapped onto the range `[min, max]`, its
//! smallest fitted value to `min` and its largest to `max`.

use vstd::prelude::*;
use crate::binary64::{equal, eq, Real};
use crate::error::Error;
use crate::matrix::{matrix_fault, validate_matrix};
use crate::scaler::{process_internal, transform_fault, ScaleCall};

verus! {

/// A min-max scaler for row-major point matrices.
#[derive(Debug)]
pub struct Normalize {
    min: Real,
    max: Real,
    cols: Option<usize>,
}

impl Normalize {
    #[verifier::type_invariant]
    spec fn valid(&self) -> bool {
        &&& !eq(self.min, self.max)
        &&& self.cols matches Some(c) ==> c > 0
    }

    /// The lower end of the target range.
    pub closed spec fn min(&self) -> Real {
        self.min
    }

    /// The upper end of the target range.
    pub closed spec fn max(&self) -> Real {
        self.max
    }

    /// Whether two scalers map onto the same range.
    pub open spec fn same_settings(&self, other: Self) -> bool {
        self.min() == other.min() && self.max() == other.max()
    }

    /// The target range, lower end first. Its ends differ.
    pub fn range(&self) -> (r: (Real, Real))
        ensures
            r == (self.min(), self.max()),
            !eq(r.0, r.1),
    {
        proof {
            use_type_invariant(self);
        }
        (self.min, self.max)
    }

    /// The number of columns that the scaler is bound to, once it is fitted.
    pub closed spec fn fitted_cols(&self) -> Option<usize> {
        self.cols
    }

    /// Whether the scaler is fitted.
    pub open spec fn fitted(&self) -> bool {
        self.fitted_cols() is Some
    }

    /// Makes an unfitted scaler onto `[min, max]`. The two ends must differ
    /// as numbers.
    pub fn new(min: Real, max: Real) -> (r: Result<Self, Error>)
        ensures
            eq(min, max) ==> r is Err && r->Err_0 == Error::RangeEmpty,
            !eq(min, max) ==> r is Ok && r->Ok_0.min() == min && r->Ok_0.max() == max
                && !r->Ok_0.fitted(),
    {
        if equal(min, max) {
            return Err(Error::RangeEmpty);
        }
        Ok(Normalize { min, max, cols: None })
    }

    /// Binds the scaler to the columns of `data`, a matrix of `rows` rows and
    /// `cols` columns, neither of them zero. The engine then takes its
    /// parameters from the same matrix. A refused matrix leaves the scaler
    /// as it was.
    pub fn fit(&mut self, data: &[Real], rows: usize, cols: usize) -> (r: Result<(), Error>)
        ensures
            final(self).same_settings(*old(self)),
            match matrix_fault(data@.len() as int, rows as int, cols as int) {
                Some(e) => r == Err::<(), Error>(e) && final(self).fitted_cols() == old(
                    self,
                ).fitted_cols(),
                None => r == Ok::<(), Error>(()) && final(self).fitted_cols() == Some(cols),
            },
    {
        proof {
            use_type_invariant(&*self);
        }
        match validate_matrix(data, rows, cols) {
            Err(e) => Err(e),
            Ok(()) => {
                self.cols = Some(cols);
                Ok(())
            },
        }
    }

    /// Checks a matrix that is to be scaled and names the call to make. An
    /// unfitted scaler refuses every matrix.
    pub fn transform(&self, data: &[Real], rows: usize, cols: usize) -> (r: Result<
        ScaleCall,
        Error,
    >)
        ensures
            !self.fitted() ==> r == Err::<ScaleCall, Error>(Error::NormalizerNotFitted),
            r == match transform_fault(
                self.fitted_cols(),
                Error::NormalizerNotFitted,
                data@.len() as int,
                rows as int,
                cols as int,
            ) {
                Some(e) => Err::<ScaleCall, Error>(e),
                None => Ok((ScaleCall { rows, cols, inverse: false })),
            },
    {
        process_internal(self.cols, Error::NormalizerNotFitted, data, rows, cols, false)
    }

    /// Checks a matrix of scaled data that is to be taken back and names the
    /// call to make. An unfitted scaler refuses every matrix.
    pub fn inverse_transform(&self, data: &[Real], rows: usize, cols: usize) -> (r: Result<
        ScaleCall,
        Error,
    >)
        ensures
            !self.fitted() ==> r == Err::<ScaleCall, Error>(Error::NormalizerNotFitted),
            r == match transform_fault(
                self.fitted_cols(),
                Error::NormalizerNotFitted,
                data@.len() as int,
                rows as int,
                cols as int,
            ) {
                Some(e) => Err::<ScaleCall, Error>(e),
                None => Ok((ScaleCall { rows, cols, inverse: true })),
            },
    {
        process_internal(self.cols, Error::NormalizerNotFitted, data, rows, cols, true)
    }

    /// Fits on a matrix and names the call that scales the same matrix. A
    /// refused matrix leaves the scaler as it was.
    pub fn fit_transform(&mut self, data: &[Real], rows: usize, cols: usize) -> (r: Result<
        ScaleCall,
        Error,
    >)
        ensures
            final(self).same_settings(*old(self)),
            match matrix_fault(data@.len() as int, rows as int, cols as int) {
                Some(e) => r == Err::<ScaleCall, Error>(e) && final(self).fitted_cols() == old(
                    self,
                ).fitted_cols(),
                None => r == Ok::<ScaleCall, Error>((ScaleCall { rows, cols, inverse: false }))
                    && final(self).fitted_cols() == Some(cols),
            },
    {
        match self.fit(data, rows, cols) {
            Err(e) => Err(e),
            Ok(()) => self.transform(data, rows, cols),
        }
    }

    /// Tells whether the scaler is fitted.
    #[verifier::when_used_as_spec(fitted)]
    pub fn is_fitted(&self) -> (r: bool)
        ensures
            r == self.fitted(),
    {
        self.cols.is_some()
    }
}

} // verus!
