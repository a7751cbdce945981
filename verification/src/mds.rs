//! Multidimensional scaling of a row-major point set: the checks in front of
//! the engine and the shape of what it writes.

use vstd::prelude::*;
use crate::binary64::Real;
use crate::error::Error;
use crate::matrix::holds_shape;

verus! {

/// The distance between two points that the scaling keeps.
#[derive(Debug, Clone, Copy, PartialEq, Eq, Structural)]
pub enum MdsDistance {
    Manhattan,
    Euclidean,
    SquaredEuclidean,
    Max,
    Min,
    KullbackLeibler,
    Cosine,
    JensenShannon,
}

impl MdsDistance {
    /// The number by which the engine knows this distance.
    pub open spec fn spec_code(self) -> int {
        match self {
            MdsDistance::Manhattan => 0,
            MdsDistance::Euclidean => 1,
            MdsDistance::SquaredEuclidean => 2,
            MdsDistance::Max => 3,
            MdsDistance::Min => 4,
            MdsDistance::KullbackLeibler => 5,
            MdsDistance::Cosine => 6,
            MdsDistance::JensenShannon => 7,
        }
    }

    /// The number by which the engine knows this distance.
    pub fn code(self) -> (c: isize)
        ensures
            c == self.spec_code(),
    {
        match self {
            MdsDistance::Manhattan => 0,
            MdsDistance::Euclidean => 1,
            MdsDistance::SquaredEuclidean => 2,
            MdsDistance::Max => 3,
            MdsDistance::Min => 4,
            MdsDistance::KullbackLeibler => 5,
            MdsDistance::Cosine => 6,
            MdsDistance::JensenShannon => 7,
        }
    }
}

/// One scaling: the shape of the points, the distance, and the length of the
/// buffer that the engine fills.
#[derive(Debug, Clone, Copy, PartialEq, Eq, Structural)]
pub struct MdsCall {
    pub rows: usize,
    pub cols: usize,
    pub target_dims: usize,
    pub distance: MdsDistance,
    /// `rows * target_dims`.
    pub output_len: usize,
}

/// The first reason, if any, for which a scaling is refused: rows and
/// columns that are not zero, a buffer that matches them, and a number of
/// target dimensions from 1 to the number of rows.
pub open spec fn scaling_fault(len: int, rows: int, cols: int, target_dims: int) -> Option<Error> {
    if rows == 0 || cols == 0 {
        Some(Error::RowsOrColsZero)
    } else if len != rows * cols {
        Some(Error::DataLengthMismatch)
    } else if target_dims == 0 {
        Some(Error::TargetDimsZero)
    } else if target_dims > rows {
        Some(Error::TargetDimsAboveRows)
    } else {
        None
    }
}

/// Multidimensional scaling. It keeps no state between two projections.
#[derive(Debug, Clone, Copy)]
pub struct Mds {}

impl Mds {
    /// This cannot fail.
    pub fn new() -> (r: Result<Self, Error>)
        ensures
            r is Ok,
    {
        Ok(Mds {  })
    }

    /// Checks a matrix that is to be scaled down to `target_dims` columns
    /// and names the call to make.
    pub fn project(
        &self,
        data: &[Real],
        rows: usize,
        cols: usize,
        target_dims: usize,
        distance: MdsDistance,
    ) -> (r: Result<MdsCall, Error>)
        requires
            rows * target_dims <= usize::MAX,
        ensures
            match scaling_fault(data@.len() as int, rows as int, cols as int, target_dims as int) {
                Some(e) => r is Err && r->Err_0 == e,
                None => r is Ok && r->Ok_0 == (MdsCall {
                    rows,
                    cols,
                    target_dims,
                    distance,
                    output_len: (rows * target_dims) as usize,
                }),
            },
    {
        if rows == 0 || cols == 0 {
            return Err(Error::RowsOrColsZero);
        }
        if !holds_shape(data.len(), rows, cols) {
            return Err(Error::DataLengthMismatch);
        }
        if target_dims == 0 {
            return Err(Error::TargetDimsZero);
        }
        if target_dims > rows {
            return Err(Error::TargetDimsAboveRows);
        }
        Ok(MdsCall { rows, cols, target_dims, distance, output_len: rows * target_dims })
    }
}

} // verus!
