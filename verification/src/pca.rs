//! Principal component analysis behind an optional scaling stage.
//!
//! A model is made unfitted. `fit` binds it to a number of columns and fits
//! the scaling stage that its settings name; from then on it projects
//! matrices of that many columns onto their leading components, and takes
//! projections back. The eigenvectors are the engine's; this module checks
//! the shapes, keeps the state, and pads what is taken back.

use vstd::prelude::*;
use crate::binary64::{eq, equal, Real, ZERO};
use crate::error::Error;
use crate::matrix::{
    append_range,
    append_zeros,
    holds_shape,
    join_rows,
    lemma_channel_bounds,
    lemma_join_consecutive,
    lemma_join_rows_index,
    lemma_join_rows_len,
    matrix_fault,
    validate_matrix,
    zeros,
};
use crate::normalize::Normalize;
use crate::robust_scale::{percentiles_fault, RobustScale};
use crate::scaler::ScaleCall;
use crate::standardize::Standardize;

verus! {

/// The scaling stage in front of the projection.
#[derive(Debug, Clone, Copy)]
pub enum PcaScaler {
    /// No scaling: the projection sees the data as it is.
    Unscaled,
    /// Min-max scaling onto `[min, max]`.
    Normalize { min: Real, max: Real },
    /// Z-score scaling.
    Standardize,
    /// Percentile scaling.
    RobustScale { low_percentile: Real, high_percentile: Real },
}

impl PcaScaler {
    /// The first rule, if any, that the settings of the stage break: the
    /// ends of a min-max range differ, and percentiles lie in `[0, 100]`,
    /// the low one not above the high one.
    pub open spec fn fault(self) -> Option<Error> {
        match self {
            PcaScaler::Unscaled => None,
            PcaScaler::Standardize => None,
            PcaScaler::Normalize { min, max } => if eq(min, max) {
                Some(Error::ScalerRangeEmpty)
            } else {
                None
            },
            PcaScaler::RobustScale { low_percentile, high_percentile } => match percentiles_fault(
                low_percentile,
                high_percentile,
            ) {
                Some(Error::LowPercentileOutOfRange) => Some(Error::ScalerLowPercentileOutOfRange),
                Some(Error::HighPercentileOutOfRange) => Some(
                    Error::ScalerHighPercentileOutOfRange,
                ),
                Some(_) => Some(Error::ScalerLowAboveHigh),
                None => None,
            },
        }
    }
}

impl Default for PcaScaler {
    /// No scaling.
    fn default() -> (s: Self)
        ensures
            s is Unscaled,
    {
        PcaScaler::Unscaled
    }
}

/// Settings of [`Pca`].
#[derive(Debug, Clone, Copy)]
pub struct PcaConfig {
    /// Whether each principal axis is rescaled to unit variance. One value
    /// serves both directions of a model.
    pub whiten: bool,
    pub scaler: PcaScaler,
}

impl Default for PcaConfig {
    /// No whitening and no scaling.
    fn default() -> (c: Self)
        ensures
            !c.whiten,
            c.scaler is Unscaled,
    {
        PcaConfig { whiten: false, scaler: PcaScaler::Unscaled }
    }
}

/// Checks the settings of a scaling stage against `PcaScaler::fault`.
pub fn validate_scaler_config(scaler: PcaScaler) -> (r: Result<(), Error>)
    ensures
        r == match scaler.fault() {
            Some(e) => Err::<(), Error>(e),
            None => Ok(()),
        },
{
    match scaler {
        PcaScaler::Unscaled => Ok(()),
        PcaScaler::Standardize => Ok(()),
        PcaScaler::Normalize { min, max } => {
            if equal(min, max) {
                return Err(Error::ScalerRangeEmpty);
            }
            Ok(())
        },
        PcaScaler::RobustScale { low_percentile, high_percentile } => {
            match RobustScale::new(low_percentile, high_percentile) {
                Ok(_) => Ok(()),
                Err(Error::LowPercentileOutOfRange) => Err(Error::ScalerLowPercentileOutOfRange),
                Err(Error::HighPercentileOutOfRange) => Err(Error::ScalerHighPercentileOutOfRange),
                Err(_) => Err(Error::ScalerLowAboveHigh),
            }
        },
    }
}

/// The scaling stage of a fitted model.
#[derive(Debug)]
enum FittedScaler {
    Unscaled,
    Normalize(Normalize),
    Standardize(Standardize),
    RobustScale(RobustScale),
}

impl FittedScaler {
    /// Whether this stage is the one that `scaler` names, bound to `cols`
    /// columns.
    spec fn fits(&self, scaler: PcaScaler, cols: usize) -> bool {
        match (*self, scaler) {
            (FittedScaler::Unscaled, PcaScaler::Unscaled) => true,
            (FittedScaler::Normalize(n), PcaScaler::Normalize { min, max }) => n.min() == min
                && n.max() == max && n.fitted_cols() == Some(cols),
            (FittedScaler::Standardize(s), PcaScaler::Standardize) => s.fitted_cols() == Some(cols),
            (
                FittedScaler::RobustScale(r),
                PcaScaler::RobustScale { low_percentile, high_percentile },
            ) => r.low() == low_percentile && r.high() == high_percentile && r.fitted_cols()
                == Some(cols),
            _ => false,
        }
    }
}

/// The call of the scaling engine that a stage asks for on a `rows` by
/// `cols` matrix, if it asks for one.
pub open spec fn stage_call(scaler: PcaScaler, rows: usize, cols: usize, inverse: bool) -> Option<
    ScaleCall,
> {
    if scaler is Unscaled {
        None
    } else {
        Some(ScaleCall { rows, cols, inverse })
    }
}

/// One projection: the scaling to apply first, if any, and the matrix that
/// the projection engine then maps onto `target_dims` columns.
#[derive(Debug, Clone, Copy)]
pub struct PcaTransformCall {
    /// The call of the fitted scaling stage, where the model has one.
    pub scaler: Option<ScaleCall>,
    pub rows: usize,
    pub cols: usize,
    pub target_dims: usize,
    pub whiten: bool,
    /// The number of values that the engine writes: `rows * target_dims`.
    pub output_len: usize,
}

/// One reconstruction: the matrix that the projection engine maps back, and
/// the scaling to take back afterwards, if any.
#[derive(Debug)]
pub struct PcaInverseCall {
    /// The projected data, filled up with zeros on the right to `cols`
    /// columns.
    pub padded: Vec<Real>,
    pub rows: usize,
    pub cols: usize,
    pub whiten: bool,
    /// The call of the fitted scaling stage on what the engine wrote, where
    /// the model has one.
    pub scaler: Option<ScaleCall>,
}

/// Row `r` of projected data of `projected_cols` columns, followed by zeros
/// up to `cols` columns, as a function of `r`.
pub open spec fn padded_row(projected: Seq<Real>, projected_cols: int, cols: int) -> spec_fn(
    int,
) -> Seq<Real> {
    |r: int|
        projected.subrange(r * projected_cols, r * projected_cols + projected_cols) + zeros(
            (cols - projected_cols) as nat,
        )
}

/// Projected data of `rows` rows, each row filled up with zeros on the right
/// to `cols` columns: the components that were dropped count as zero.
pub open spec fn padded(projected: Seq<Real>, rows: nat, projected_cols: int, cols: int) -> Seq<
    Real,
> {
    join_rows(rows, padded_row(projected, projected_cols, cols))
}

/// The first reason, if any, for which a model that is bound to `dims`
/// columns refuses to project `len` values, given as a `rows` by `cols`
/// matrix, onto `target_dims` columns.
pub open spec fn project_fault(
    dims: Option<usize>,
    len: int,
    rows: int,
    cols: int,
    target_dims: int,
) -> Option<Error> {
    if matrix_fault(len, rows, cols) is Some {
        matrix_fault(len, rows, cols)
    } else if dims is None {
        Some(Error::PcaNotFitted)
    } else if dims.unwrap() != cols {
        Some(Error::ColsMismatch)
    } else if target_dims == 0 {
        Some(Error::TargetDimsZero)
    } else if target_dims > cols {
        Some(Error::TargetDimsAboveCols)
    } else {
        None
    }
}

/// The first reason, if any, for which a model that is bound to `dims`
/// columns refuses to take back `len` values, given as `rows` rows of
/// `projected_cols` columns.
pub open spec fn reconstruct_fault(
    dims: Option<usize>,
    len: int,
    rows: int,
    projected_cols: int,
) -> Option<Error> {
    if rows == 0 {
        Some(Error::RowsZero)
    } else if projected_cols == 0 {
        Some(Error::ProjectedColsZero)
    } else if len != rows * projected_cols {
        Some(Error::ProjectedLengthMismatch)
    } else if dims is None {
        Some(Error::PcaNotFitted)
    } else if projected_cols > dims.unwrap() {
        Some(Error::ProjectedColsAboveDims)
    } else {
        None
    }
}

/// Fills up each row of projected data with zeros on the right.
fn pad_rows(projected: &[Real], rows: usize, projected_cols: usize, cols: usize) -> (out: Vec<Real>)
    requires
        projected@.len() == rows * projected_cols,
        projected_cols <= cols,
        rows * cols <= usize::MAX,
    ensures
        out@ == padded(projected@, rows as nat, projected_cols as int, cols as int),
        out@.len() == rows * cols,
{
    let ghost row = padded_row(projected@, projected_cols as int, cols as int);
    let total: usize = projected.len();
    let mut out: Vec<Real> = Vec::new();
    let mut r: usize = 0;
    while r < rows
        invariant
            r <= rows,
            total == rows * projected_cols,
            total == projected@.len(),
            projected_cols <= cols,
            row == padded_row(projected@, projected_cols as int, cols as int),
            out@ == join_rows(r as nat, row),
        decreases rows - r,
    {
        proof {
            lemma_channel_bounds(r as int, rows as int, projected_cols as int);
        }
        let from: usize = r * projected_cols;
        append_range(&mut out, projected, from, from + projected_cols);
        append_zeros(&mut out, cols - projected_cols);
        r = r + 1;
    }
    proof {
        assert forall|k: int| 0 <= k < rows implies (#[trigger] row(k)).len() == cols by {
            lemma_channel_bounds(k, rows as int, projected_cols as int);
        }
        lemma_join_rows_len(rows as nat, row, cols as nat);
    }
    out
}

/// Filling up to the width that the rows already have changes nothing:
/// a projection onto all components is taken back as it is.
pub proof fn lemma_padded_to_same_width(projected: Seq<Real>, rows: nat, cols: nat)
    requires
        projected.len() == rows * cols,
    ensures
        padded(projected, rows, cols as int, cols as int) == projected,
{
    let row = padded_row(projected, cols as int, cols as int);
    assert forall|r: int| 0 <= r < rows implies #[trigger] row(r) == projected.subrange(
        r * cols,
        r * cols + cols,
    ) by {
        assert(row(r) =~= projected.subrange(r * cols, r * cols + cols));
    }
    lemma_join_consecutive(projected, rows, cols as int, row);
    assert(projected.subrange(0, rows * (cols as int)) =~= projected);
}

/// In padded data, the first `projected_cols` values of a row are those of
/// the projected row, and the others are zero.
pub proof fn lemma_padded_index(
    projected: Seq<Real>,
    rows: nat,
    projected_cols: nat,
    cols: nat,
    r: int,
    c: int,
)
    requires
        projected.len() == rows * projected_cols,
        projected_cols <= cols,
        0 <= r < rows,
        0 <= c < cols,
    ensures
        padded(projected, rows, projected_cols as int, cols as int).len() == rows * cols,
        0 <= r * cols + c < rows * cols,
        c < projected_cols ==> 0 <= r * projected_cols + c < projected.len(),
        padded(projected, rows, projected_cols as int, cols as int)[r * cols + c] == if c
            < projected_cols {
            projected[r * projected_cols + c]
        } else {
            ZERO
        },
{
    let row = padded_row(projected, projected_cols as int, cols as int);
    assert forall|k: int| 0 <= k < rows implies (#[trigger] row(k)).len() == cols by {
        lemma_channel_bounds(k, rows as int, projected_cols as int);
    }
    lemma_channel_bounds(r, rows as int, projected_cols as int);
    lemma_join_rows_len(rows, row, cols);
    lemma_join_rows_index(rows, row, cols, r, c);
}

/// What `fit` accepts, `transform` accepts for every number of target
/// dimensions from 1 to the number of columns; and what such a projection
/// writes, `rows` rows of `target_dims` columns, `inverse_transform`
/// accepts. So projecting and taking back can follow a fit without a
/// failure in between.
pub proof fn lemma_projection_is_taken_back(len: int, rows: usize, cols: usize, target_dims: usize)
    requires
        matrix_fault(len, rows as int, cols as int) is None,
        1 <= target_dims <= cols,
    ensures
        project_fault(Some(cols), len, rows as int, cols as int, target_dims as int) is None,
        reconstruct_fault(Some(cols), rows * target_dims, rows as int, target_dims as int) is None,
{
}

/// A principal component analysis with an optional scaling stage.
#[derive(Debug)]
pub struct Pca {
    config: PcaConfig,
    dims: Option<usize>,
    fitted_scaler: Option<FittedScaler>,
}

impl Pca {
    #[verifier::type_invariant]
    spec fn valid(&self) -> bool {
        &&& self.config.scaler.fault() is None
        &&& self.dims is Some <==> self.fitted_scaler is Some
        &&& self.dims matches Some(d) ==> d > 0 && self.fitted_scaler.unwrap().fits(
            self.config.scaler,
            d,
        )
    }

    /// The settings of the model. They never change.
    pub closed spec fn settings(&self) -> PcaConfig {
        self.config
    }

    /// The number of columns that the model is bound to, once it is fitted.
    pub closed spec fn fitted_dims(&self) -> Option<usize> {
        self.dims
    }

    /// Whether the model is fitted.
    pub open spec fn fitted(&self) -> bool {
        self.fitted_dims() is Some
    }

    /// Makes an unfitted model, unless the settings of the scaling stage
    /// break a rule.
    pub fn new(config: PcaConfig) -> (r: Result<Self, Error>)
        ensures
            match config.scaler.fault() {
                Some(e) => r is Err && r->Err_0 == e,
                None => r is Ok && r->Ok_0.settings() == config && !r->Ok_0.fitted(),
            },
    {
        match validate_scaler_config(config.scaler) {
            Err(e) => Err(e),
            Ok(()) => Ok(Pca { config, dims: None, fitted_scaler: None }),
        }
    }

    /// The settings of the model. The scaling stage breaks no rule.
    pub fn config(&self) -> (c: PcaConfig)
        ensures
            c == self.settings(),
            c.scaler.fault() is None,
    {
        proof {
            use_type_invariant(self);
        }
        self.config
    }

    /// Makes the scaling stage that the settings name and fits it on a
    /// matrix. Returns the call that scales the same matrix, where there is
    /// a stage.
    fn fit_scaler_and_transform(&self, data: &[Real], rows: usize, cols: usize) -> (r: Result<
        (Option<ScaleCall>, FittedScaler),
        Error,
    >)
        requires
            matrix_fault(data@.len() as int, rows as int, cols as int) is None,
        ensures
            r is Ok,
            r->Ok_0.0 == stage_call(self.settings().scaler, rows, cols, false),
            r->Ok_0.1.fits(self.settings().scaler, cols),
    {
        proof {
            use_type_invariant(self);
        }
        match self.config.scaler {
            PcaScaler::Unscaled => Ok((None, FittedScaler::Unscaled)),
            PcaScaler::Normalize { min, max } => {
                let mut n = match Normalize::new(min, max) {
                    Ok(n) => n,
                    Err(e) => {
                        return Err(e);
                    },
                };
                match n.fit_transform(data, rows, cols) {
                    Ok(call) => Ok((Some(call), FittedScaler::Normalize(n))),
                    Err(e) => Err(e),
                }
            },
            PcaScaler::Standardize => {
                let mut s = match Standardize::new() {
                    Ok(s) => s,
                    Err(e) => {
                        return Err(e);
                    },
                };
                match s.fit_transform(data, rows, cols) {
                    Ok(call) => Ok((Some(call), FittedScaler::Standardize(s))),
                    Err(e) => Err(e),
                }
            },
            PcaScaler::RobustScale { low_percentile, high_percentile } => {
                let mut r = match RobustScale::new(low_percentile, high_percentile) {
                    Ok(r) => r,
                    Err(e) => {
                        return Err(e);
                    },
                };
                match r.fit_transform(data, rows, cols) {
                    Ok(call) => Ok((Some(call), FittedScaler::RobustScale(r))),
                    Err(e) => Err(e),
                }
            },
        }
    }

    /// Names the call with which the fitted stage scales, or takes back, a
    /// `rows` by `cols` matrix.
    fn apply_scaler(&self, data: &[Real], rows: usize, cols: usize, inverse: bool) -> (r: Result<
        Option<ScaleCall>,
        Error,
    >)
        requires
            self.fitted_dims() == Some(cols),
            rows > 0,
            data@.len() == rows * cols,
        ensures
            r is Ok,
            r->Ok_0 == stage_call(self.settings().scaler, rows, cols, inverse),
    {
        proof {
            use_type_invariant(self);
        }
        let stage: &FittedScaler = match &self.fitted_scaler {
            Some(stage) => stage,
            None => {
                return Err(Error::PcaNotFitted);
            },
        };
        let call = match stage {
            FittedScaler::Unscaled => {
                return Ok(None);
            },
            FittedScaler::Normalize(n) => if inverse {
                n.inverse_transform(data, rows, cols)
            } else {
                n.transform(data, rows, cols)
            },
            FittedScaler::Standardize(s) => if inverse {
                s.inverse_transform(data, rows, cols)
            } else {
                s.transform(data, rows, cols)
            },
            FittedScaler::RobustScale(r) => if inverse {
                r.inverse_transform(data, rows, cols)
            } else {
                r.transform(data, rows, cols)
            },
        };
        match call {
            Ok(c) => Ok(Some(c)),
            Err(e) => Err(e),
        }
    }

    /// Names the call with which the fitted stage scales a `rows` by `cols`
    /// matrix.
    fn apply_scaler_transform(&self, data: &[Real], rows: usize, cols: usize) -> (r: Result<
        Option<ScaleCall>,
        Error,
    >)
        requires
            self.fitted_dims() == Some(cols),
            rows > 0,
            data@.len() == rows * cols,
        ensures
            r is Ok,
            r->Ok_0 == stage_call(self.settings().scaler, rows, cols, false),
    {
        self.apply_scaler(data, rows, cols, false)
    }

    /// Names the call with which the fitted stage takes back a `rows` by
    /// `cols` matrix.
    fn apply_scaler_inverse_transform(&self, data: &[Real], rows: usize, cols: usize) -> (r:
        Result<Option<ScaleCall>, Error>)
        requires
            self.fitted_dims() == Some(cols),
            rows > 0,
            data@.len() == rows * cols,
        ensures
            r is Ok,
            r->Ok_0 == stage_call(self.settings().scaler, rows, cols, true),
    {
        self.apply_scaler(data, rows, cols, true)
    }

    /// Binds the model to the columns of `data`, a matrix of `rows` rows and
    /// `cols` columns, neither of them zero, and fits a fresh scaling stage
    /// on it. The engine is then fitted on the same matrix, scaled by that
    /// stage. A refused matrix leaves the model as it was.
    pub fn fit(&mut self, data: &[Real], rows: usize, cols: usize) -> (r: Result<(), Error>)
        ensures
            final(self).settings() == old(self).settings(),
            match matrix_fault(data@.len() as int, rows as int, cols as int) {
                Some(e) => r == Err::<(), Error>(e) && final(self).fitted_dims() == old(
                    self,
                ).fitted_dims(),
                None => r == Ok::<(), Error>(()) && final(self).fitted_dims() == Some(cols),
            },
    {
        proof {
            use_type_invariant(&*self);
        }
        match validate_matrix(data, rows, cols) {
            Err(e) => {
                return Err(e);
            },
            Ok(()) => {},
        }
        match self.fit_scaler_and_transform(data, rows, cols) {
            Err(e) => Err(e),
            Ok((_, stage)) => {
                *self = Pca { config: self.config, dims: Some(cols), fitted_scaler: Some(stage) };
                Ok(())
            },
        }
    }

    /// Fits on a matrix and names the projection of the same matrix onto
    /// `target_dims` columns. The model is fitted as soon as the matrix is
    /// accepted, also where `target_dims` is refused afterwards.
    pub fn fit_transform(&mut self, data: &[Real], rows: usize, cols: usize, target_dims: usize) -> (r:
        Result<PcaTransformCall, Error>)
        ensures
            final(self).settings() == old(self).settings(),
            match matrix_fault(data@.len() as int, rows as int, cols as int) {
                Some(e) => r is Err && r->Err_0 == e && final(self).fitted_dims() == old(
                    self,
                ).fitted_dims(),
                None => final(self).fitted_dims() == Some(cols) && final(self).projects(
                    data@.len() as int,
                    rows,
                    cols,
                    target_dims,
                    r,
                ),
            },
    {
        match self.fit(data, rows, cols) {
            Err(e) => Err(e),
            Ok(()) => self.transform(data, rows, cols, target_dims),
        }
    }

    /// Whether `r` is what `transform` owes for `len` values given as a
    /// `rows` by `cols` matrix: the first fault of `project_fault`, or the
    /// call that scales with the fitted stage and projects onto
    /// `target_dims` columns.
    pub open spec fn projects(
        &self,
        len: int,
        rows: usize,
        cols: usize,
        target_dims: usize,
        r: Result<PcaTransformCall, Error>,
    ) -> bool {
        match project_fault(self.fitted_dims(), len, rows as int, cols as int, target_dims as int) {
            Some(e) => r is Err && r->Err_0 == e,
            None => {
                &&& r is Ok
                &&& r->Ok_0.scaler == stage_call(self.settings().scaler, rows, cols, false)
                &&& r->Ok_0.rows == rows
                &&& r->Ok_0.cols == cols
                &&& r->Ok_0.target_dims == target_dims
                &&& r->Ok_0.whiten == self.settings().whiten
                &&& r->Ok_0.output_len == rows * target_dims
            },
        }
    }

    /// Checks a matrix that is to be projected onto `target_dims` columns,
    /// `1 <= target_dims <= cols`, and names the calls to make: the fitted
    /// stage scales the matrix, it is not fitted anew, and the engine
    /// projects the result. An unfitted model refuses every well-shaped
    /// matrix.
    pub fn transform(&self, data: &[Real], rows: usize, cols: usize, target_dims: usize) -> (r:
        Result<PcaTransformCall, Error>)
        ensures
            self.projects(data@.len() as int, rows, cols, target_dims, r),
            !self.fitted() ==> r is Err,
            !self.fitted() && matrix_fault(data@.len() as int, rows as int, cols as int) is None
                ==> r is Err && r->Err_0 == Error::PcaNotFitted,
    {
        match validate_matrix(data, rows, cols) {
            Err(e) => {
                return Err(e);
            },
            Ok(()) => {},
        }
        match self.ensure_fitted(cols) {
            Err(e) => {
                return Err(e);
            },
            Ok(()) => {},
        }
        if target_dims == 0 {
            return Err(Error::TargetDimsZero);
        }
        if target_dims > cols {
            return Err(Error::TargetDimsAboveCols);
        }
        let scaler = match self.apply_scaler_transform(data, rows, cols) {
            Ok(s) => s,
            Err(e) => {
                return Err(e);
            },
        };
        let total: usize = data.len();
        assert(rows * target_dims <= rows * cols) by (nonlinear_arith)
            requires
                target_dims <= cols,
                0 <= rows,
        ;
        Ok(
            PcaTransformCall {
                scaler,
                rows,
                cols,
                target_dims,
                whiten: self.config.whiten,
                output_len: rows * target_dims,
            },
        )
    }

    /// Checks projected data of `rows` rows and `projected_cols` columns that
    /// is to be taken back to the columns that the model was fitted on, and
    /// names the calls to make. The engine expects rows of full width, so
    /// each row is filled up with zeros on the right: the components that
    /// were dropped count as exactly zero. What the engine writes is then
    /// taken back through the fitted scaling stage.
    pub fn inverse_transform(&self, projected: &[Real], rows: usize, projected_cols: usize) -> (r:
        Result<PcaInverseCall, Error>)
        requires
            self.fitted_dims() is Some ==> rows * self.fitted_dims().unwrap() <= usize::MAX,
        ensures
            !self.fitted() ==> r is Err,
            !self.fitted() && rows > 0 && projected_cols > 0 && projected@.len() == rows
                * projected_cols ==> r is Err && r->Err_0 == Error::PcaNotFitted,
            match reconstruct_fault(
                self.fitted_dims(),
                projected@.len() as int,
                rows as int,
                projected_cols as int,
            ) {
                Some(e) => r is Err && r->Err_0 == e,
                None => {
                    &&& r is Ok
                    &&& r->Ok_0.padded@ == padded(
                        projected@,
                        rows as nat,
                        projected_cols as int,
                        self.fitted_dims().unwrap() as int,
                    )
                    &&& r->Ok_0.padded@.len() == rows * self.fitted_dims().unwrap()
                    &&& r->Ok_0.rows == rows
                    &&& r->Ok_0.cols == self.fitted_dims().unwrap()
                    &&& r->Ok_0.whiten == self.settings().whiten
                    &&& r->Ok_0.scaler == stage_call(
                        self.settings().scaler,
                        rows,
                        self.fitted_dims().unwrap(),
                        true,
                    )
                },
            },
    {
        if rows == 0 {
            return Err(Error::RowsZero);
        }
        if projected_cols == 0 {
            return Err(Error::ProjectedColsZero);
        }
        if !holds_shape(projected.len(), rows, projected_cols) {
            return Err(Error::ProjectedLengthMismatch);
        }
        let cols: usize = match self.dims {
            Some(d) => d,
            None => {
                return Err(Error::PcaNotFitted);
            },
        };
        if projected_cols > cols {
            return Err(Error::ProjectedColsAboveDims);
        }
        let padded: Vec<Real> = pad_rows(projected, rows, projected_cols, cols);
        let scaler = match self.apply_scaler_inverse_transform(padded.as_slice(), rows, cols) {
            Ok(s) => s,
            Err(e) => {
                return Err(e);
            },
        };
        Ok(PcaInverseCall { padded, rows, cols, whiten: self.config.whiten, scaler })
    }

    /// Tells whether the model is fitted.
    #[verifier::when_used_as_spec(fitted)]
    pub fn is_fitted(&self) -> (r: bool)
        ensures
            r == self.fitted(),
    {
        self.dims.is_some()
    }

    /// The number of columns that the model is bound to, or `None` before
    /// `fit`.
    #[verifier::when_used_as_spec(fitted_dims)]
    pub fn dims(&self) -> (r: Option<usize>)
        ensures
            r == self.fitted_dims(),
            r matches Some(d) ==> d > 0,
    {
        proof {
            use_type_invariant(self);
        }
        self.dims
    }

    /// Checks that the model is fitted, and on `cols` columns.
    fn ensure_fitted(&self, cols: usize) -> (r: Result<(), Error>)
        ensures
            self.fitted_dims() is None ==> r == Err::<(), Error>(Error::PcaNotFitted),
            self.fitted_dims() is Some && self.fitted_dims() != Some(cols) ==> r == Err::<
                (),
                Error,
            >(Error::ColsMismatch),
            self.fitted_dims() == Some(cols) ==> r == Ok::<(), Error>(()),
    {
        match self.dims {
            None => Err(Error::PcaNotFitted),
            Some(d) => if d != cols {
                Err(Error::ColsMismatch)
            } else {
                Ok(())
            },
        }
    }
}

} // verus!
