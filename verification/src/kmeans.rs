//! K-means and spherical k-means clustering of row-major point sets: the
//! checks in front of the engines and the shapes of what they exchange.

use vstd::prelude::*;
use crate::binary64::Real;
use crate::error::Error;
use crate::matrix::holds_shape;

verus! {

/// How the first means are picked.
#[derive(Debug, Clone, Copy, PartialEq, Eq, Structural)]
pub enum KMeansInit {
    RandomPartition,
    RandomPoint,
    RandomSampling,
}

impl KMeansInit {
    /// The number by which the engine knows this way.
    pub open spec fn spec_code(self) -> int {
        match self {
            KMeansInit::RandomPartition => 0,
            KMeansInit::RandomPoint => 1,
            KMeansInit::RandomSampling => 2,
        }
    }

    /// The number by which the engine knows this way.
    pub fn code(self) -> (c: isize)
        ensures
            c == self.spec_code(),
    {
        match self {
            KMeansInit::RandomPartition => 0,
            KMeansInit::RandomPoint => 1,
            KMeansInit::RandomSampling => 2,
        }
    }
}

/// Settings of one clustering.
#[derive(Debug, Clone, Copy)]
pub struct KMeansConfig {
    /// The number of clusters.
    pub k: usize,
    /// The most iterations that the engine makes.
    pub max_iter: usize,
    pub init: KMeansInit,
    /// The seed of the engine's random choices; a negative one lets the
    /// engine choose.
    pub seed: isize,
}

impl Default for KMeansConfig {
    /// Eight clusters, at most 64 iterations, first means at random points,
    /// and a seed of the engine's choice.
    fn default() -> (c: Self)
        ensures
            c.k == 8,
            c.max_iter == 64,
            c.init == KMeansInit::RandomPoint,
            c.seed == -1,
    {
        KMeansConfig { k: 8, max_iter: 64, init: KMeansInit::RandomPoint, seed: -1 }
    }
}

/// What a clustering gives: the means, row-major, and for each point the
/// cluster it belongs to.
#[derive(Debug, Clone)]
pub struct KMeansResult {
    pub means: Vec<Real>,
    pub assignments: Vec<usize>,
    pub k: usize,
    pub dims: usize,
}

/// One clustering: the shape of the points, the settings, and the lengths of
/// the two buffers that the engine fills.
#[derive(Debug, Clone, Copy)]
pub struct KMeansCall {
    pub rows: usize,
    pub dims: usize,
    pub k: usize,
    pub max_iter: usize,
    pub init: KMeansInit,
    pub seed: isize,
    /// `k * dims`.
    pub means_len: usize,
    /// `rows`.
    pub assignments_len: usize,
}

/// The first reason, if any, for which a clustering is refused: points and
/// dimensions that are not zero, a buffer that matches them, a number of
/// clusters from 1 to the number of points, and one iteration at least.
pub open spec fn clustering_fault(len: int, rows: int, dims: int, config: KMeansConfig) -> Option<
    Error,
> {
    if rows == 0 || dims == 0 {
        Some(Error::RowsOrDimsZero)
    } else if len != rows * dims {
        Some(Error::DimsLengthMismatch)
    } else if config.k == 0 {
        Some(Error::ClustersZero)
    } else if config.k > rows {
        Some(Error::ClustersAboveRows)
    } else if config.max_iter == 0 {
        Some(Error::MaxIterZero)
    } else {
        None
    }
}

/// Checks a point set and the settings of a clustering against
/// `clustering_fault`.
pub fn validate_kmeans_input(data: &[Real], rows: usize, dims: usize, config: KMeansConfig) -> (r:
    Result<(), Error>)
    ensures
        r == match clustering_fault(data@.len() as int, rows as int, dims as int, config) {
            Some(e) => Err::<(), Error>(e),
            None => Ok(()),
        },
{
    if rows == 0 || dims == 0 {
        return Err(Error::RowsOrDimsZero);
    }
    if !holds_shape(data.len(), rows, dims) {
        return Err(Error::DimsLengthMismatch);
    }
    if config.k == 0 {
        return Err(Error::ClustersZero);
    }
    if config.k > rows {
        return Err(Error::ClustersAboveRows);
    }
    if config.max_iter == 0 {
        return Err(Error::MaxIterZero);
    }
    Ok(())
}

/// Whether `r` is what a clustering of `len` values, given as `rows` points
/// of `dims` dimensions, owes: the first fault of `clustering_fault`, or the
/// call to make.
pub open spec fn clusters(
    len: int,
    rows: usize,
    dims: usize,
    config: KMeansConfig,
    r: Result<KMeansCall, Error>,
) -> bool {
    match clustering_fault(len, rows as int, dims as int, config) {
        Some(e) => r is Err && r->Err_0 == e,
        None => {
            &&& r is Ok
            &&& r->Ok_0.rows == rows
            &&& r->Ok_0.dims == dims
            &&& r->Ok_0.k == config.k
            &&& r->Ok_0.max_iter == config.max_iter
            &&& r->Ok_0.init == config.init
            &&& r->Ok_0.seed == config.seed
            &&& r->Ok_0.means_len == config.k * dims
            &&& r->Ok_0.assignments_len == rows
        },
    }
}

/// Checks a clustering and names the call to make.
fn plan(data: &[Real], rows: usize, dims: usize, config: KMeansConfig) -> (r: Result<
    KMeansCall,
    Error,
>)
    ensures
        clusters(data@.len() as int, rows, dims, config, r),
{
    match validate_kmeans_input(data, rows, dims, config) {
        Err(e) => {
            return Err(e);
        },
        Ok(()) => {},
    }
    let total: usize = data.len();
    assert(config.k * dims <= rows * dims) by (nonlinear_arith)
        requires
            config.k <= rows,
            0 <= dims,
    ;
    Ok(
        KMeansCall {
            rows,
            dims,
            k: config.k,
            max_iter: config.max_iter,
            init: config.init,
            seed: config.seed,
            means_len: config.k * dims,
            assignments_len: rows,
        },
    )
}

/// Puts together what the engine wrote for a clustering.
pub fn collect(call: KMeansCall, means: Vec<Real>, assignments: Vec<usize>) -> (r: KMeansResult)
    requires
        means@.len() == call.means_len,
        assignments@.len() == call.assignments_len,
    ensures
        r.means@ == means@,
        r.assignments@ == assignments@,
        r.k == call.k,
        r.dims == call.dims,
{
    KMeansResult { means, assignments, k: call.k, dims: call.dims }
}

/// K-means clustering. It keeps no state between two fits.
#[derive(Debug, Clone, Copy)]
pub struct KMeans {}

impl KMeans {
    /// This cannot fail.
    pub fn new() -> (r: Result<Self, Error>)
        ensures
            r is Ok,
    {
        Ok(KMeans {  })
    }

    /// Checks `rows` points of `dims` dimensions and the settings, and names
    /// the call to make.
    pub fn fit(&self, data: &[Real], rows: usize, dims: usize, config: KMeansConfig) -> (r: Result<
        KMeansCall,
        Error,
    >)
        ensures
            clusters(data@.len() as int, rows, dims, config, r),
    {
        plan(data, rows, dims, config)
    }
}

/// Spherical k-means clustering. Once fitted, it encodes points by their
/// likeness to each of the `k` means.
#[derive(Debug, Clone, Copy)]
pub struct SKMeans {
    k: usize,
}

impl SKMeans {
    /// The number of clusters of the last fit, or 0 before the first.
    pub closed spec fn clusters(&self) -> usize {
        self.k
    }

    /// The number of clusters of the last fit, or 0 before the first.
    #[verifier::when_used_as_spec(clusters)]
    pub fn k(&self) -> (r: usize)
        ensures
            r == self.clusters(),
    {
        self.k
    }

    /// Makes an unfitted clustering. This cannot fail.
    pub fn new() -> (r: Result<Self, Error>)
        ensures
            r is Ok,
            r->Ok_0.clusters() == 0,
    {
        Ok(SKMeans { k: 0 })
    }

    /// Checks `rows` points of `dims` dimensions and the settings, and names
    /// the call to make. An accepted clustering binds the encoder to its
    /// number of clusters; a refused one leaves it as it was.
    pub fn fit(&mut self, data: &[Real], rows: usize, dims: usize, config: KMeansConfig) -> (r:
        Result<KMeansCall, Error>)
        ensures
            self::clusters(data@.len() as int, rows, dims, config, r),
            r is Ok ==> final(self).clusters() == config.k,
            r is Err ==> final(self).clusters() == old(self).clusters(),
    {
        match plan(data, rows, dims, config) {
            Err(e) => Err(e),
            Ok(call) => {
                self.k = config.k;
                Ok(call)
            },
        }
    }

    /// The first reason, if any, for which `len` values, given as `rows`
    /// points of `dims` dimensions, are not encoded.
    pub open spec fn encode_fault(&self, len: int, rows: int, dims: int) -> Option<Error> {
        if self.clusters() == 0 {
            Some(Error::SKMeansNotFitted)
        } else if rows == 0 || dims == 0 {
            Some(Error::RowsOrDimsZero)
        } else if len != rows * dims {
            Some(Error::DimsLengthMismatch)
        } else {
            None
        }
    }

    /// Checks points that are to be encoded and names the call to make: the
    /// engine writes `k` values for each point. An unfitted clustering
    /// refuses every point set.
    pub fn encode(&self, data: &[Real], rows: usize, dims: usize, alpha: Real) -> (r: Result<
        EncodeCall,
        Error,
    >)
        requires
            rows * self.clusters() <= usize::MAX,
        ensures
            match self.encode_fault(data@.len() as int, rows as int, dims as int) {
                Some(e) => r is Err && r->Err_0 == e,
                None => r is Ok && r->Ok_0 == (EncodeCall {
                    rows,
                    dims,
                    alpha,
                    k: self.clusters(),
                    output_len: (rows * self.clusters()) as usize,
                }),
            },
    {
        if self.k == 0 {
            return Err(Error::SKMeansNotFitted);
        }
        if rows == 0 || dims == 0 {
            return Err(Error::RowsOrDimsZero);
        }
        if !holds_shape(data.len(), rows, dims) {
            return Err(Error::DimsLengthMismatch);
        }
        Ok(EncodeCall { rows, dims, alpha, k: self.k, output_len: rows * self.k })
    }
}

/// One encoding: the shape of the points, the threshold below which a
/// likeness counts as none, and the length of the buffer that the engine
/// fills.
#[derive(Debug, Clone, Copy, PartialEq, Eq, Structural)]
pub struct EncodeCall {
    pub rows: usize,
    pub dims: usize,
    pub alpha: Real,
    pub k: usize,
    /// `rows * k`.
    pub output_len: usize,
}

} // verus!
