//! Percentile scaling: each column is shifted by its fitted median and
//! divided by the distance between two of its fitted percentiles, which
//! makes outliers weigh less than min-max or z-score scaling does.

use vstd::prelude::*;
use crate::binary64::{at_most, is_within, le, within, Real, HUNDRED, ZERO};
use crate::error::Error;
use crate::matrix::{matrix_fault, validate_matrix};
use crate::scaler::{process_internal, transform_fault, ScaleCall};

verus! {

/// The first rule, if any, that a pair of percentiles breaks: each in
/// `[0, 100]`, and `low <= high`.
pub open spec fn percentiles_fault(low: Real, high: Real) -> Option<Error> {
    if !within(low, ZERO, HUNDRED) {
        Some(Error::LowPercentileOutOfRange)
    } else if !within(high, ZERO, HUNDRED) {
        Some(Error::HighPercentileOutOfRange)
    } else if !le(low, high) {
        Some(Error::LowAboveHigh)
    } else {
        None
    }
}

/// A percentile scaler for row-major point matrices.
#[derive(Debug)]
pub struct RobustScale {
    low_percentile: Real,
    high_percentile: Real,
    cols: Option<usize>,
}

impl RobustScale {
    #[verifier::type_invariant]
    spec fn valid(&self) -> bool {
        &&& percentiles_fault(self.low_percentile, self.high_percentile) is None
        &&& self.cols matches Some(c) ==> c > 0
    }

    /// The lower percentile.
    pub closed spec fn low(&self) -> Real {
        self.low_percentile
    }

    /// The upper percentile.
    pub closed spec fn high(&self) -> Real {
        self.high_percentile
    }

    /// Whether two scalers use the same percentiles.
    pub open spec fn same_settings(&self, other: Self) -> bool {
        self.low() == other.low() && self.high() == other.high()
    }

    /// The two percentiles, the lower first. They break no rule.
    pub fn percentiles(&self) -> (r: (Real, Real))
        ensures
            r == (self.low(), self.high()),
            percentiles_fault(r.0, r.1) is None,
    {
        proof {
            use_type_invariant(self);
        }
        (self.low_percentile, self.high_percentile)
    }

    /// The number of columns that the scaler is bound to, once it is fitted.
    pub closed spec fn fitted_cols(&self) -> Option<usize> {
        self.cols
    }

    /// Whether the scaler is fitted.
    pub open spec fn fitted(&self) -> bool {
        self.fitted_cols() is Some
    }

    /// Makes an unfitted scaler on two percentiles that break no rule.
    pub fn new(low_percentile: Real, high_percentile: Real) -> (r: Result<Self, Error>)
        ensures
            match percentiles_fault(low_percentile, high_percentile) {
                Some(e) => r is Err && r->Err_0 == e,
                None => r is Ok && r->Ok_0.low() == low_percentile && r->Ok_0.high()
                    == high_percentile && !r->Ok_0.fitted(),
            },
    {
        if !is_within(low_percentile, ZERO, HUNDRED) {
            return Err(Error::LowPercentileOutOfRange);
        }
        if !is_within(high_percentile, ZERO, HUNDRED) {
            return Err(Error::HighPercentileOutOfRange);
        }
        if !at_most(low_percentile, high_percentile) {
            return Err(Error::LowAboveHigh);
        }
        Ok(RobustScale { low_percentile, high_percentile, cols: None })
    }

    /// Binds the scaler to the columns of `data`, a matrix of `rows` rows and
    /// `cols` columns, neither of them zero. The engine then takes its
    /// parameters from the same matrix. A refused matrix leaves the scaler
    /// as it was.
    pub fn fit(&mut self, data: &[Real], rows: usize, cols: usize) -> (r: Result<(), Error>)
        ensures
            final(self).same_settings(*old(self)),
            match matrix_fault(data@.len() as int, rows as int, cols as int) {
                Some(e) => r == Err::<(), Error>(e) && final(self).fitted_cols() == old(
                    self,
                ).fitted_cols(),
                None => r == Ok::<(), Error>(()) && final(self).fitted_cols() == Some(cols),
            },
    {
        proof {
            use_type_invariant(&*self);
        }
        match validate_matrix(data, rows, cols) {
            Err(e) => Err(e),
            Ok(()) => {
                self.cols = Some(cols);
                Ok(())
            },
        }
    }

    /// Checks a matrix that is to be scaled and names the call to make. An
    /// unfitted scaler refuses every matrix.
    pub fn transform(&self, data: &[Real], rows: usize, cols: usize) -> (r: Result<
        ScaleCall,
        Error,
    >)
        ensures
            !self.fitted() ==> r == Err::<ScaleCall, Error>(Error::RobustScalerNotFitted),
            r == match transform_fault(
                self.fitted_cols(),
                Error::RobustScalerNotFitted,
                data@.len() as int,
                rows as int,
                cols as int,
            ) {
                Some(e) => Err::<ScaleCall, Error>(e),
                None => Ok((ScaleCall { rows, cols, inverse: false })),
            },
    {
        process_internal(self.cols, Error::RobustScalerNotFitted, data, rows, cols, false)
    }

    /// Checks a matrix of scaled data that is to be taken back and names the
    /// call to make. An unfitted scaler refuses every matrix.
    pub fn inverse_transform(&self, data: &[Real], rows: usize, cols: usize) -> (r: Result<
        ScaleCall,
        Error,
    >)
        ensures
            !self.fitted() ==> r == Err::<ScaleCall, Error>(Error::RobustScalerNotFitted),
            r == match transform_fault(
                self.fitted_cols(),
                Error::RobustScalerNotFitted,
                data@.len() as int,
                rows as int,
                cols as int,
            ) {
                Some(e) => Err::<ScaleCall, Error>(e),
                None => Ok((ScaleCall { rows, cols, inverse: true })),
            },
    {
        process_internal(self.cols, Error::RobustScalerNotFitted, data, rows, cols, true)
    }

    /// Fits on a matrix and names the call that scales the same matrix. A
    /// refused matrix leaves the scaler as it was.
    pub fn fit_transform(&mut self, data: &[Real], rows: usize, cols: usize) -> (r: Result<
        ScaleCall,
        Error,
    >)
        ensures
            final(self).same_settings(*old(self)),
            match matrix_fault(data@.len() as int, rows as int, cols as int) {
                Some(e) => r == Err::<ScaleCall, Error>(e) && final(self).fitted_cols() == old(
                    self,
                ).fitted_cols(),
                None => r == Ok::<ScaleCall, Error>((ScaleCall { rows, cols, inverse: false }))
                    && final(self).fitted_cols() == Some(cols),
            },
    {
        match self.fit(data, rows, cols) {
            Err(e) => Err(e),
            Ok(()) => self.transform(data, rows, cols),
        }
    }

    /// Tells whether the scaler is fitted.
    #[verifier::when_used_as_spec(fitted)]
    pub fn is_fitted(&self) -> (r: bool)
        ensures
            r == self.fitted(),
    {
        self.cols.is_some()
    }
}

} // verus!
