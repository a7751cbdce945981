//! What the three feature scalers share: the life cycle of a scaler and the
//! checks in front of the scaling engine.
//!
//! A scaler is made unfitted. `fit` binds it to a number of columns; from
//! then on it transforms, forwards or backwards, matrices of exactly that
//! many columns. A second `fit` binds it anew.

use vstd::prelude::*;
use crate::binary64::Real;
use crate::error::Error;
use crate::matrix::{holds_shape, matrix_fault};

verus! {

/// One call of a scaling engine on a row-major matrix. The engine writes as
/// many values as it reads.
#[derive(Debug, Clone, Copy, PartialEq, Eq, Structural)]
pub struct ScaleCall {
    pub rows: usize,
    pub cols: usize,
    /// `false` scales the data, `true` takes scaled data back.
    pub inverse: bool,
}

/// The first reason, if any, for which a scaler that is bound to `fitted`
/// columns refuses to transform `len` values given as a `rows` by `cols`
/// matrix. `unfitted` is the failure that an unbound scaler reports.
pub open spec fn transform_fault(
    fitted: Option<usize>,
    unfitted: Error,
    len: int,
    rows: int,
    cols: int,
) -> Option<Error> {
    if fitted is None {
        Some(unfitted)
    } else if rows == 0 {
        Some(Error::RowsZero)
    } else if cols == 0 {
        Some(Error::ColsZero)
    } else if fitted.unwrap() != cols {
        Some(Error::ColsMismatch)
    } else if len != rows * cols {
        Some(Error::DataLengthMismatch)
    } else {
        None
    }
}

/// Checks a matrix in front of the scaling engine, for a scaler that is
/// bound to `fitted` columns, and names the call to make.
pub fn process_internal(
    fitted: Option<usize>,
    unfitted: Error,
    data: &[Real],
    rows: usize,
    cols: usize,
    inverse: bool,
) -> (r: Result<ScaleCall, Error>)
    ensures
        r == match transform_fault(fitted, unfitted, data@.len() as int, rows as int, cols as int) {
            Some(e) => Err::<ScaleCall, Error>(e),
            None => Ok((ScaleCall { rows, cols, inverse })),
        },
{
    let bound: usize = match fitted {
        None => {
            return Err(unfitted);
        },
        Some(c) => c,
    };
    if rows == 0 {
        return Err(Error::RowsZero);
    }
    if cols == 0 {
        return Err(Error::ColsZero);
    }
    if bound != cols {
        return Err(Error::ColsMismatch);
    }
    if !holds_shape(data.len(), rows, cols) {
        return Err(Error::DataLengthMismatch);
    }
    Ok(ScaleCall { rows, cols, inverse })
}

/// What `fit` accepts, `transform` and `inverse_transform` accept: once a
/// scaler is fitted on a matrix, a matrix of the same shape is refused in
/// neither direction, so that scaling and taking back can follow a fit
/// without a failure in between.
pub proof fn lemma_fitted_shape_is_accepted(unfitted: Error, len: int, rows: usize, cols: usize)
    requires
        matrix_fault(len, rows as int, cols as int) is None,
    ensures
        transform_fault(Some(cols), unfitted, len, rows as int, cols as int) is None,
{
}

/// Any number of rows is accepted after a fit, as long as the columns are
/// those of the fit.
pub proof fn lemma_fitted_columns_are_accepted(
    unfitted: Error,
    fitted: usize,
    len: int,
    rows: usize,
    cols: usize,
)
    requires
        fitted > 0,
        rows > 0,
        cols == fitted,
        len == rows * cols,
    ensures
        transform_fault(Some(fitted), unfitted, len, rows as int, cols as int) is None,
{
}

} // verus!
