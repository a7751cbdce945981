//! Redistribution of points of the plane onto a grid: the checks in front
//! of the engine and what is made of its answer.

use vstd::prelude::*;
use crate::binary64::Real;
use crate::error::Error;
use crate::matrix::holds_shape;

verus! {

/// One redistribution: the number of points, the settings, and the length of
/// the buffer that the engine fills.
#[derive(Debug, Clone, Copy, PartialEq, Eq, Structural)]
pub struct GridCall {
    pub rows: usize,
    pub over_sample: usize,
    pub extent: usize,
    pub axis: usize,
    /// `rows * 2`.
    pub output_len: usize,
}

/// The first reason, if any, for which a redistribution is refused: one
/// point at least, a pair of coordinates for each point, an oversampling
/// that is not zero, and an axis that is 0 or 1.
pub open spec fn grid_fault(len: int, rows: int, over_sample: int, axis: int) -> Option<Error> {
    if rows == 0 {
        Some(Error::RowsZero)
    } else if len != rows * 2 {
        Some(Error::InputNotPairs)
    } else if over_sample == 0 {
        Some(Error::OverSampleZero)
    } else if axis > 1 {
        Some(Error::AxisOutOfRange)
    } else {
        None
    }
}

/// Redistribution of points onto a grid.
#[derive(Debug, Clone, Copy)]
pub struct Grid {}

impl Grid {
    /// Checks points given as `[x0, y0, x1, y1, ...]` and names the call to
    /// make.
    pub fn process(input: &[Real], rows: usize, over_sample: usize, extent: usize, axis: usize) -> (r:
        Result<GridCall, Error>)
        ensures
            match grid_fault(input@.len() as int, rows as int, over_sample as int, axis as int) {
                Some(e) => r is Err && r->Err_0 == e,
                None => r is Ok && r->Ok_0 == (GridCall {
                    rows,
                    over_sample,
                    extent,
                    axis,
                    output_len: (rows * 2) as usize,
                }),
            },
    {
        if rows == 0 {
            return Err(Error::RowsZero);
        }
        if !holds_shape(input.len(), rows, 2) {
            return Err(Error::InputNotPairs);
        }
        if over_sample == 0 {
            return Err(Error::OverSampleZero);
        }
        if axis > 1 {
            return Err(Error::AxisOutOfRange);
        }
        Ok(GridCall { rows, over_sample, extent, axis, output_len: input.len() })
    }

    /// Takes the engine's answer: the grid coordinates where it succeeded,
    /// a failure where it did not.
    pub fn finish(ok: bool, output: Vec<Real>) -> (r: Result<Vec<Real>, Error>)
        ensures
            ok ==> r is Ok && r->Ok_0@ == output@,
            !ok ==> r is Err && r->Err_0 == Error::GridFailed,
    {
        if !ok {
            return Err(Error::GridFailed);
        }
        Ok(output)
    }
}

} // verus!
