//! The failures that the boundary reports.

use vstd::prelude::*;

verus! {

/// Why an operation was refused. Every refusal happens before the engine is
/// reached, so the engine never sees a shape or a setting that a variant of
/// this type describes. The two exceptions are `GridFailed` and
/// `QueryFailed`, which pass on a failure that the engine itself reported.
#[derive(Debug, Clone, Copy, PartialEq, Eq, Structural)]
pub enum Error {
    /// A matrix was declared with no rows.
    RowsZero,
    /// A matrix was declared with no columns.
    ColsZero,
    /// The buffer does not hold `rows * cols` values.
    DataLengthMismatch,
    /// A matrix was declared with no rows or no columns.
    RowsOrColsZero,
    /// A point set was declared with no points or no dimensions.
    RowsOrDimsZero,
    /// The buffer does not hold `rows * dims` values.
    DimsLengthMismatch,
    /// The matrix has another number of columns than the one fitted on.
    ColsMismatch,
    /// The target range of a min-max scaler has equal ends.
    RangeEmpty,
    /// A min-max scaler was used before `fit`.
    NormalizerNotFitted,
    /// A z-score scaler was used before `fit`.
    StandardizerNotFitted,
    /// A percentile scaler was used before `fit`.
    RobustScalerNotFitted,
    /// A projection was used before `fit`.
    PcaNotFitted,
    /// A spherical clustering was used to encode before `fit`.
    SKMeansNotFitted,
    /// The low percentile is outside `[0, 100]`.
    LowPercentileOutOfRange,
    /// The middle percentile is outside `[0, 100]`.
    MiddlePercentileOutOfRange,
    /// The high percentile is outside `[0, 100]`.
    HighPercentileOutOfRange,
    /// The low percentile exceeds the middle one.
    LowAboveMiddle,
    /// The middle percentile exceeds the high one.
    MiddleAboveHigh,
    /// The low percentile exceeds the high one.
    LowAboveHigh,
    /// The min-max stage of a projection has equal ends.
    ScalerRangeEmpty,
    /// The percentile stage of a projection has its low percentile outside `[0, 100]`.
    ScalerLowPercentileOutOfRange,
    /// The percentile stage of a projection has its high percentile outside `[0, 100]`.
    ScalerHighPercentileOutOfRange,
    /// The percentile stage of a projection has its low percentile above the high one.
    ScalerLowAboveHigh,
    /// A projection onto no dimension was asked for.
    TargetDimsZero,
    /// A projection onto more dimensions than the input has was asked for.
    TargetDimsAboveCols,
    /// A scaling onto more dimensions than there are points was asked for.
    TargetDimsAboveRows,
    /// Projected data was declared with no columns.
    ProjectedColsZero,
    /// The projected buffer does not hold `rows * projected_cols` values.
    ProjectedLengthMismatch,
    /// Projected data has more columns than the fitted model has dimensions.
    ProjectedColsAboveDims,
    /// More than two derivative orders were asked for.
    DerivativesOutOfRange,
    /// The source was declared with no frames.
    SourceFramesZero,
    /// The source was declared with no channels.
    SourceChannelsZero,
    /// The source does not hold `frames * channels` values.
    SourceLengthMismatch,
    /// The first selected frame lies behind the source.
    StartFrameOutOfRange,
    /// No frame is selected.
    FrameSpanZero,
    /// The selected frames run past the end of the source.
    FrameSpanOutOfRange,
    /// The selected frames are too few for the derivative order.
    FrameSpanTooShort,
    /// The first selected channel lies behind the source.
    StartChannelOutOfRange,
    /// No channel is selected.
    ChannelCountZero,
    /// The selected channels run past the end of the source.
    ChannelSpanOutOfRange,
    /// The selection holds no statistic.
    NothingSelected,
    /// There is not one weight for each selected frame.
    WeightsSpanMismatch,
    /// The input was declared with no frames.
    FramesZero,
    /// The input was declared with no channels.
    ChannelsZero,
    /// The input does not hold `frames * channels` values.
    InputLengthMismatch,
    /// The frames are too few for the derivative order.
    FramesTooFew,
    /// There is not one weight for each frame.
    WeightsLengthMismatch,
    /// The analysis window is empty.
    WindowSizeZero,
    /// The transform is shorter than the window.
    FftSizeBelowWindow,
    /// Successive frames do not advance.
    HopSizeZero,
    /// The frame is empty.
    FrameSizeZero,
    /// The sample rate is zero or negative.
    SampleRateNotPositive,
    /// Fewer than two bands were asked for.
    TooFewBands,
    /// The spectrum has no bin.
    BinsZero,
    /// The lower band edge is not below the upper one.
    BandEdgesUnordered,
    /// The kernel size is zero or even.
    KernelSizeNotOdd,
    /// The feature frames have no dimension.
    DimsZero,
    /// The filter size is zero or even.
    FilterSizeNotOdd,
    /// The model order is zero.
    OrderZero,
    /// The block is not longer than the model order.
    BlockSizeTooSmall,
    /// The padding is not longer than the model order.
    PadSizeTooSmall,
    /// The history holds fewer than two frames.
    HistoryTooShort,
    /// The input frames are empty.
    InputSizeZero,
    /// No cluster was asked for.
    ClustersZero,
    /// More clusters than points were asked for.
    ClustersAboveRows,
    /// No iteration is allowed.
    MaxIterZero,
    /// The input does not hold one pair for each point.
    InputNotPairs,
    /// The oversampling factor is zero.
    OverSampleZero,
    /// The axis is neither 0 nor 1.
    AxisOutOfRange,
    /// The engine reported that it could not lay out the grid.
    GridFailed,
    /// A query selects no column.
    NoColumnsSelected,
    /// A selected column lies outside the data.
    SelectedColumnOutOfRange,
    /// A condition tests a column outside the data.
    ConditionColumnOutOfRange,
    /// The engine reported that the query failed.
    QueryFailed,
}

impl Error {
    /// The text of the message for this failure.
    pub open spec fn text(self) -> Seq<char> {
        match self {
            Error::RowsZero => "rows must be > 0"@,
            Error::ColsZero => "cols must be > 0"@,
            Error::DataLengthMismatch => "data length does not match rows * cols"@,
            Error::RowsOrColsZero => "rows and cols must be > 0"@,
            Error::RowsOrDimsZero => "rows and dims must be > 0"@,
            Error::DimsLengthMismatch => "data length does not match rows * dims"@,
            Error::ColsMismatch => "cols must match fitted feature dimension"@,
            Error::RangeEmpty => "min and max must be different"@,
            Error::NormalizerNotFitted => "normalizer is not fitted"@,
            Error::StandardizerNotFitted => "standardizer is not fitted"@,
            Error::RobustScalerNotFitted => "robust scaler is not fitted"@,
            Error::PcaNotFitted => "PCA is not fitted"@,
            Error::SKMeansNotFitted => "SKMeans is not fitted"@,
            Error::LowPercentileOutOfRange => "low_percentile must be in [0, 100]"@,
            Error::MiddlePercentileOutOfRange => "middle_percentile must be in [0, 100]"@,
            Error::HighPercentileOutOfRange => "high_percentile must be in [0, 100]"@,
            Error::LowAboveMiddle => "low_percentile must be <= middle_percentile"@,
            Error::MiddleAboveHigh => "middle_percentile must be <= high_percentile"@,
            Error::LowAboveHigh => "low_percentile must be <= high_percentile"@,
            Error::ScalerRangeEmpty => "Normalize scaler requires min != max"@,
            Error::ScalerLowPercentileOutOfRange => "RobustScale low_percentile must be in [0, 100]"@,
            Error::ScalerHighPercentileOutOfRange => "RobustScale high_percentile must be in [0, 100]"@,
            Error::ScalerLowAboveHigh => "RobustScale low_percentile must be <= high_percentile"@,
            Error::TargetDimsZero => "target_dims must be > 0"@,
            Error::TargetDimsAboveCols => "target_dims must be <= input cols"@,
            Error::TargetDimsAboveRows => "target_dims must be <= rows"@,
            Error::ProjectedColsZero => "projected_cols must be > 0"@,
            Error::ProjectedLengthMismatch => "projected length does not match rows * projected_cols"@,
            Error::ProjectedColsAboveDims => "projected_cols must be <= fitted dims"@,
            Error::DerivativesOutOfRange => "num_derivatives must be in [0, 2]"@,
            Error::SourceFramesZero => "source_num_frames must be > 0"@,
            Error::SourceChannelsZero => "source_num_channels must be > 0"@,
            Error::SourceLengthMismatch => "source length does not match source_num_frames * source_num_channels"@,
            Error::StartFrameOutOfRange => "start_frame out of range"@,
            Error::FrameSpanZero => "selected frame span must be > 0"@,
            Error::FrameSpanOutOfRange => "start_frame + num_frames out of range"@,
            Error::FrameSpanTooShort => "selected frame span must be > num_derivatives"@,
            Error::StartChannelOutOfRange => "start_channel out of range"@,
            Error::ChannelCountZero => "selected channel count must be > 0"@,
            Error::ChannelSpanOutOfRange => "start_channel + num_channels out of range"@,
            Error::NothingSelected => "select must enable at least one statistic"@,
            Error::WeightsSpanMismatch => "weights length must match selected frame span"@,
            Error::FramesZero => "num_frames must be > 0"@,
            Error::ChannelsZero => "num_channels must be > 0"@,
            Error::InputLengthMismatch => "input length does not match num_frames * num_channels"@,
            Error::FramesTooFew => "num_frames must be > num_derivatives"@,
            Error::WeightsLengthMismatch => "weights length must equal num_frames"@,
            Error::WindowSizeZero => "window_size must be > 0"@,
            Error::FftSizeBelowWindow => "fft_size must be >= window_size"@,
            Error::HopSizeZero => "hop_size must be > 0"@,
            Error::FrameSizeZero => "frame_size must be > 0"@,
            Error::SampleRateNotPositive => "sample_rate must be > 0"@,
            Error::TooFewBands => "n_bands must be >= 2"@,
            Error::BinsZero => "n_bins must be > 0"@,
            Error::BandEdgesUnordered => "lo_hz must be < hi_hz"@,
            Error::KernelSizeNotOdd => "kernel_size must be odd and > 0"@,
            Error::DimsZero => "n_dims must be > 0"@,
            Error::FilterSizeNotOdd => "filter_size must be odd and > 0"@,
            Error::OrderZero => "order must be > 0"@,
            Error::BlockSizeTooSmall => "block_size must be > order"@,
            Error::PadSizeTooSmall => "pad_size must be > order"@,
            Error::HistoryTooShort => "history_size must be >= 2"@,
            Error::InputSizeZero => "input_size must be > 0"@,
            Error::ClustersZero => "k must be > 0"@,
            Error::ClustersAboveRows => "k must be <= rows"@,
            Error::MaxIterZero => "max_iter must be > 0"@,
            Error::InputNotPairs => "input length must be rows * 2"@,
            Error::OverSampleZero => "over_sample must be > 0"@,
            Error::AxisOutOfRange => "axis must be 0 or 1"@,
            Error::GridFailed => "grid process failed"@,
            Error::NoColumnsSelected => "selected_columns cannot be empty"@,
            Error::SelectedColumnOutOfRange => "selected column out of range"@,
            Error::ConditionColumnOutOfRange => "condition column out of range"@,
            Error::QueryFailed => "dataset query failed"@,
        }
    }

    /// A short message for this failure.
    pub fn message(self) -> (s: &'static str)
        ensures
            s@ == self.text(),
    {
        match self {
            Error::RowsZero => "rows must be > 0",
            Error::ColsZero => "cols must be > 0",
            Error::DataLengthMismatch => "data length does not match rows * cols",
            Error::RowsOrColsZero => "rows and cols must be > 0",
            Error::RowsOrDimsZero => "rows and dims must be > 0",
            Error::DimsLengthMismatch => "data length does not match rows * dims",
            Error::ColsMismatch => "cols must match fitted feature dimension",
            Error::RangeEmpty => "min and max must be different",
            Error::NormalizerNotFitted => "normalizer is not fitted",
            Error::StandardizerNotFitted => "standardizer is not fitted",
            Error::RobustScalerNotFitted => "robust scaler is not fitted",
            Error::PcaNotFitted => "PCA is not fitted",
            Error::SKMeansNotFitted => "SKMeans is not fitted",
            Error::LowPercentileOutOfRange => "low_percentile must be in [0, 100]",
            Error::MiddlePercentileOutOfRange => "middle_percentile must be in [0, 100]",
            Error::HighPercentileOutOfRange => "high_percentile must be in [0, 100]",
            Error::LowAboveMiddle => "low_percentile must be <= middle_percentile",
            Error::MiddleAboveHigh => "middle_percentile must be <= high_percentile",
            Error::LowAboveHigh => "low_percentile must be <= high_percentile",
            Error::ScalerRangeEmpty => "Normalize scaler requires min != max",
            Error::ScalerLowPercentileOutOfRange => "RobustScale low_percentile must be in [0, 100]",
            Error::ScalerHighPercentileOutOfRange => "RobustScale high_percentile must be in [0, 100]",
            Error::ScalerLowAboveHigh => "RobustScale low_percentile must be <= high_percentile",
            Error::TargetDimsZero => "target_dims must be > 0",
            Error::TargetDimsAboveCols => "target_dims must be <= input cols",
            Error::TargetDimsAboveRows => "target_dims must be <= rows",
            Error::ProjectedColsZero => "projected_cols must be > 0",
            Error::ProjectedLengthMismatch => "projected length does not match rows * projected_cols",
            Error::ProjectedColsAboveDims => "projected_cols must be <= fitted dims",
            Error::DerivativesOutOfRange => "num_derivatives must be in [0, 2]",
            Error::SourceFramesZero => "source_num_frames must be > 0",
            Error::SourceChannelsZero => "source_num_channels must be > 0",
            Error::SourceLengthMismatch => "source length does not match source_num_frames * source_num_channels",
            Error::StartFrameOutOfRange => "start_frame out of range",
            Error::FrameSpanZero => "selected frame span must be > 0",
            Error::FrameSpanOutOfRange => "start_frame + num_frames out of range",
            Error::FrameSpanTooShort => "selected frame span must be > num_derivatives",
            Error::StartChannelOutOfRange => "start_channel out of range",
            Error::ChannelCountZero => "selected channel count must be > 0",
            Error::ChannelSpanOutOfRange => "start_channel + num_channels out of range",
            Error::NothingSelected => "select must enable at least one statistic",
            Error::WeightsSpanMismatch => "weights length must match selected frame span",
            Error::FramesZero => "num_frames must be > 0",
            Error::ChannelsZero => "num_channels must be > 0",
            Error::InputLengthMismatch => "input length does not match num_frames * num_channels",
            Error::FramesTooFew => "num_frames must be > num_derivatives",
            Error::WeightsLengthMismatch => "weights length must equal num_frames",
            Error::WindowSizeZero => "window_size must be > 0",
            Error::FftSizeBelowWindow => "fft_size must be >= window_size",
            Error::HopSizeZero => "hop_size must be > 0",
            Error::FrameSizeZero => "frame_size must be > 0",
            Error::SampleRateNotPositive => "sample_rate must be > 0",
            Error::TooFewBands => "n_bands must be >= 2",
            Error::BinsZero => "n_bins must be > 0",
            Error::BandEdgesUnordered => "lo_hz must be < hi_hz",
            Error::KernelSizeNotOdd => "kernel_size must be odd and > 0",
            Error::DimsZero => "n_dims must be > 0",
            Error::FilterSizeNotOdd => "filter_size must be odd and > 0",
            Error::OrderZero => "order must be > 0",
            Error::BlockSizeTooSmall => "block_size must be > order",
            Error::PadSizeTooSmall => "pad_size must be > order",
            Error::HistoryTooShort => "history_size must be >= 2",
            Error::InputSizeZero => "input_size must be > 0",
            Error::ClustersZero => "k must be > 0",
            Error::ClustersAboveRows => "k must be <= rows",
            Error::MaxIterZero => "max_iter must be > 0",
            Error::InputNotPairs => "input length must be rows * 2",
            Error::OverSampleZero => "over_sample must be > 0",
            Error::AxisOutOfRange => "axis must be 0 or 1",
            Error::GridFailed => "grid process failed",
            Error::NoColumnsSelected => "selected_columns cannot be empty",
            Error::SelectedColumnOutOfRange => "selected column out of range",
            Error::ConditionColumnOutOfRange => "condition column out of range",
            Error::QueryFailed => "dataset query failed",
        }
    }
}

} // verus!
