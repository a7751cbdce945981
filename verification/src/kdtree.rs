//! Nearest-neighbour search in a k-d tree: the shape of the points, and
//! what is kept of an answer.

use vstd::prelude::*;
use crate::binary64::Real;

verus! {

/// The neighbours that a search found, nearest first: their distances and
/// their names.
#[derive(Debug, Clone)]
pub struct KNNResult {
    pub distances: Vec<Real>,
    pub ids: Vec<String>,
}

/// One search: the length of the point that is looked for, and the number
/// of neighbours asked for.
#[derive(Debug, Clone, Copy, PartialEq, Eq, Structural)]
pub struct KnnCall {
    pub input_len: usize,
    pub k: usize,
}

/// The settings of a k-d tree: the number of dimensions of its points.
#[derive(Debug, Clone, Copy)]
pub struct KDTree {
    dims: usize,
}

impl KDTree {
    /// The number of dimensions of a point.
    pub closed spec fn spec_dims(&self) -> usize {
        self.dims
    }

    /// A tree for points of `dims` dimensions.
    pub fn new(dims: usize) -> (t: Self)
        ensures
            t.spec_dims() == dims,
    {
        KDTree { dims }
    }

    /// The number of dimensions of a point.
    #[verifier::when_used_as_spec(spec_dims)]
    pub fn dims(&self) -> (r: usize)
        ensures
            r == self.spec_dims(),
    {
        self.dims
    }

    /// Takes a point of exactly `dims` coordinates and names the search for
    /// its `k` nearest neighbours.
    pub fn k_nearest(&self, input: &[Real], k: usize) -> (call: KnnCall)
        requires
            input@.len() == self.spec_dims(),
        ensures
            call == (KnnCall { input_len: self.spec_dims(), k }),
    {
        KnnCall { input_len: input.len(), k }
    }

    /// Takes the distances that the engine wrote and the names of the
    /// neighbours it found, which may be fewer than were asked for, and
    /// keeps one distance for each name.
    pub fn finish(distances: Vec<Real>, ids: Vec<String>) -> (r: KNNResult)
        ensures
            r.ids@ == ids@,
            ids@.len() <= distances@.len() ==> r.distances@ == distances@.take(ids@.len() as int),
            ids@.len() > distances@.len() ==> r.distances@ == distances@,
    {
        let mut distances = distances;
        distances.truncate(ids.len());
        KNNResult { distances, ids }
    }
}

} // verus!
