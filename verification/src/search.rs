//! Search in point sets.

pub use crate::kdtree::{KDTree, KNNResult};
