//! The checked boundary in front of a native signal-analysis engine.
//!
//! The engine computes: statistical moments and percentiles, scalings,
//! eigen-projections, transforms, detection functions. This library decides
//! what the engine is asked. Every operation validates its arguments before
//! the engine is reached, shapes the buffers around the call, keeps the fit
//! state of the models, and says which call is to be made; where the engine's
//! answer needs work, a second function takes the answer and finishes it.
//! The caller owns the engine and makes the calls.
//!
//! Numbers cross this library as bit patterns ([`binary64`]), buffers as flat
//! slices whose shape travels beside them ([`matrix`]), and failures as
//! values of one type ([`error`]).
//!
//! The core is the data pipeline:
//! - [`multi_stats`] and [`bufstats`]: statistics of channel-major buffers,
//!   of the whole buffer or of a window of it, with a selection of the
//!   statistics and with optional frame weights;
//! - [`normalize`], [`standardize`] and [`robust_scale`]: the three feature
//!   scalers, which share the life cycle of [`scaler`];
//! - [`pca`]: projection onto principal components behind an optional
//!   scaler, and reconstruction from padded projections.
//!
//! The other modules hold the settings and shapes of the remaining engines.

pub mod analyzation;
pub mod audio_transport;
pub mod binary64;
pub mod bufstats;
pub mod data;
pub mod dataset_query;
pub mod decomposition;
pub mod envelope_seg;
pub mod error;
pub mod grid;
pub mod kdtree;
pub mod kmeans;
pub mod loudness;
pub mod matrix;
pub mod mds;
pub mod mel_bands;
pub mod multi_stats;
pub mod normalize;
pub mod novelty_seg;
pub mod onset;
pub mod onset_seg;
pub mod pca;
pub mod robust_scale;
pub mod running_stats;
pub mod scaler;
pub mod search;
pub mod segmentation;
pub mod standardize;
pub mod stft;
pub mod transient_seg;
