//! Statistics, scaling, projection and clustering of data sets.

pub use crate::bufstats::{BufStat, BufStats, BufStatsConfig, BufStatsOutput, BufStatsSelect};
pub use crate::dataset_query::{ComparisonOp, DataSetQuery, DataSetQueryResult, QueryCondition};
pub use crate::grid::Grid;
pub use crate::kmeans::{KMeans, KMeansConfig, KMeansInit, KMeansResult, SKMeans};
pub use crate::mds::{Mds, MdsDistance};
pub use crate::multi_stats::{MultiStats, MultiStatsConfig, MultiStatsOutput};
pub use crate::normalize::Normalize;
pub use crate::pca::{Pca, PcaConfig, PcaScaler};
pub use crate::robust_scale::RobustScale;
pub use crate::running_stats::RunningStats;
pub use crate::standardize::Standardize;
