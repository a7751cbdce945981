use flucoma_rs::bufstats::{
    validate_config, BufStat, BufStats, BufStatsConfig, BufStatsSelect, BufStatsStep,
};
use flucoma_rs::error::Error;
use flucoma_rs::multi_stats::StatsCall;

fn bits(values: &[f64]) -> Vec<u64> {
    values.iter().map(|v| v.to_bits()).collect()
}

fn reals(values: &[u64]) -> Vec<f64> {
    values.iter().map(|v| f64::from_bits(*v)).collect()
}

fn expect_call(step: BufStatsStep) -> StatsCall {
    match step {
        BufStatsStep::Compute(call) => call,
        BufStatsStep::Done(_) => panic!("the engine should have been asked"),
    }
}

/// Stands for the statistics engine on the signal 1, 2, 3, 4: one block of
/// seven for the signal, one for its first difference 1, 1, 1 and one for its
/// second difference 0, 0. The means, 2.5, 1 and 0, and the percentiles are
/// exact; the other slots hold marks that no test may find in its output.
fn engine_output_for_ramp(num_derivatives: usize) -> Vec<u64> {
    let blocks = [
        [2.5, 901.0, 902.0, 903.0, 1.0, 2.5, 4.0],
        [1.0, 911.0, 912.0, 913.0, 1.0, 1.0, 1.0],
        [0.0, 921.0, 922.0, 923.0, 0.0, 0.0, 0.0],
    ];
    let mut out = Vec::new();
    for block in blocks.iter().take(num_derivatives + 1) {
        out.extend(bits(block));
    }
    out
}

#[test]
fn mean_only_matches_expected() {
    let config = BufStatsConfig {
        select: BufStatsSelect::from_stats(&[BufStat::Mean]),
        ..BufStatsConfig::default()
    };
    let stats = BufStats::new(config).unwrap();
    let source = bits(&[1.0, 2.0, 3.0, 4.0]);
    let call = expect_call(stats.process(&source, 4, 1, None).unwrap());
    assert_eq!(call.input, source);
    assert_eq!((call.num_channels, call.num_frames, call.output_len), (1, 4, 7));
    let output = stats.finish(call.num_channels, &engine_output_for_ramp(0));
    assert_eq!(reals(output.values()), vec![2.5]);
}

#[test]
fn derivative_means_follow_expected_order() {
    let config = BufStatsConfig {
        select: BufStatsSelect::from_stats(&[BufStat::Mean]),
        num_derivatives: 2,
        ..BufStatsConfig::default()
    };
    let stats = BufStats::new(config).unwrap();
    let source = bits(&[1.0, 2.0, 3.0, 4.0]);
    let call = expect_call(stats.process(&source, 4, 1, None).unwrap());
    assert_eq!(call.num_derivatives, 2);
    assert_eq!(call.output_len, 21);
    let output = stats.finish(call.num_channels, &engine_output_for_ramp(2));
    let values = reals(output.values());
    assert_eq!(values.len(), 3);
    assert!((values[0] - 2.5).abs() < 1e-12, "unexpected d0 mean: {}", values[0]);
    assert!((values[1] - 1.0).abs() < 1e-12, "unexpected d1 mean: {}", values[1]);
    assert!(values[2].abs() < 1e-12, "unexpected d2 mean: {}", values[2]);
}

#[test]
fn weights_influence_mean() {
    let config = BufStatsConfig {
        select: BufStatsSelect::from_stats(&[BufStat::Mean]),
        ..BufStatsConfig::default()
    };
    let stats = BufStats::new(config).unwrap();
    let source = bits(&[0.0, 10.0]);
    let weights = bits(&[0.9, 0.1]);
    let call = expect_call(stats.process(&source, 2, 1, Some(&weights)).unwrap());
    assert_eq!(call.input, source);
    assert_eq!(call.weights, Some(weights));
    // Stands for the engine: the weighted mean of 0 and 10 under the weights
    // 0.9 and 0.1 is 1; the other slots hold marks.
    let engine = bits(&[1.0, 901.0, 902.0, 903.0, 904.0, 905.0, 906.0]);
    let output = stats.finish(call.num_channels, &engine);
    assert!((reals(output.values())[0] - 1.0).abs() < 1e-9);
}

#[test]
fn non_positive_weights_return_zeros() {
    let config = BufStatsConfig {
        select: BufStatsSelect::from_stats(&[BufStat::Mean, BufStat::Std]),
        num_derivatives: 1,
        ..BufStatsConfig::default()
    };
    let stats = BufStats::new(config).unwrap();
    let source = bits(&[1.0, 2.0, 3.0, 4.0]);
    let weights = bits(&[0.0, -1.0, 0.0, -2.0]);
    match stats.process(&source, 4, 1, Some(&weights)).unwrap() {
        BufStatsStep::Done(output) => {
            assert_eq!(reals(output.values()), vec![0.0, 0.0, 0.0, 0.0]);
            assert_eq!(output.num_channels(), 1);
            assert_eq!(output.values_per_channel(), 4);
        },
        BufStatsStep::Compute(_) => panic!("the engine should not have been asked"),
    }
}

#[test]
fn non_positive_weights_give_zeros_for_every_selection() {
    let selections: [&[BufStat]; 4] = [
        &[BufStat::Mean],
        &[BufStat::High, BufStat::Low],
        &[BufStat::Skew, BufStat::Kurtosis, BufStat::Mid],
        &[
            BufStat::Mean,
            BufStat::Std,
            BufStat::Skew,
            BufStat::Kurtosis,
            BufStat::Low,
            BufStat::Mid,
            BufStat::High,
        ],
    ];
    let source = bits(&[1.0, -2.0, 3.5, 4.0, 9.0, 8.0, 7.0, 6.0]);
    let weights = bits(&[-0.0, f64::NEG_INFINITY, f64::NAN, -3.0]);
    for selection in selections {
        for num_derivatives in 0..=2u8 {
            let config = BufStatsConfig {
                select: BufStatsSelect::from_stats(selection),
                num_derivatives,
                ..BufStatsConfig::default()
            };
            let stats = BufStats::new(config).unwrap();
            match stats.process(&source, 4, 2, Some(&weights)).unwrap() {
                BufStatsStep::Done(output) => {
                    let width = selection.len() * (num_derivatives as usize + 1);
                    assert_eq!(output.values_per_channel(), width);
                    assert_eq!(output.values().len(), 2 * width);
                    assert!(output.values().iter().all(|v| *v == 0));
                },
                BufStatsStep::Compute(_) => panic!("the engine should not have been asked"),
            }
        }
    }
}

#[test]
fn one_positive_weight_asks_the_engine() {
    let stats = BufStats::new(BufStatsConfig::default()).unwrap();
    let source = bits(&[1.0, 2.0, 3.0]);
    let weights = bits(&[0.0, f64::MIN_POSITIVE, -1.0]);
    let call = expect_call(stats.process(&source, 3, 1, Some(&weights)).unwrap());
    assert_eq!(call.weights, Some(weights));
}

#[test]
fn window_is_cut_out_channel_by_channel() {
    // Three channels of four frames.
    let source = bits(&[
        0.0, 1.0, 2.0, 3.0, //
        10.0, 11.0, 12.0, 13.0, //
        20.0, 21.0, 22.0, 23.0,
    ]);
    let config = BufStatsConfig {
        start_frame: 1,
        num_frames: Some(2),
        start_channel: 1,
        num_channels: None,
        ..BufStatsConfig::default()
    };
    let stats = BufStats::new(config).unwrap();
    let call = expect_call(stats.process(&source, 4, 3, None).unwrap());
    assert_eq!(reals(&call.input), vec![11.0, 12.0, 21.0, 22.0]);
    assert_eq!((call.num_channels, call.num_frames), (2, 2));
    assert_eq!(call.output_len, 14);
    assert_eq!(call.weights, None);
    assert_eq!(f64::from_bits(call.outliers_cutoff), -1.0);
    assert_eq!(f64::from_bits(call.low_percentile), 0.0);
    assert_eq!(f64::from_bits(call.middle_percentile), 50.0);
    assert_eq!(f64::from_bits(call.high_percentile), 100.0);
}

#[test]
fn cutoff_and_percentiles_reach_the_engine() {
    let config = BufStatsConfig {
        low_percentile: 10.0f64.to_bits(),
        middle_percentile: 10.0f64.to_bits(),
        high_percentile: 90.0f64.to_bits(),
        outliers_cutoff: Some(1.5f64.to_bits()),
        ..BufStatsConfig::default()
    };
    let stats = BufStats::new(config).unwrap();
    let call = expect_call(stats.process(&bits(&[1.0, 2.0]), 2, 1, None).unwrap());
    assert_eq!(f64::from_bits(call.outliers_cutoff), 1.5);
    assert_eq!(f64::from_bits(call.low_percentile), 10.0);
    assert_eq!(f64::from_bits(call.middle_percentile), 10.0);
    assert_eq!(f64::from_bits(call.high_percentile), 90.0);
}

#[test]
fn selection_keeps_the_fixed_order_in_every_block() {
    let config = BufStatsConfig {
        // Listed out of order and twice: the output follows the fixed order.
        select: BufStatsSelect::from_stats(&[BufStat::High, BufStat::Std, BufStat::High]),
        num_derivatives: 1,
        ..BufStatsConfig::default()
    };
    let stats = BufStats::new(config).unwrap();
    // Two channels, two blocks of seven each.
    let engine: Vec<f64> = (0..28).map(|i| i as f64).collect();
    let output = stats.finish(2, &bits(&engine));
    assert_eq!(output.num_channels(), 2);
    assert_eq!(output.values_per_channel(), 4);
    assert_eq!(reals(output.values()), vec![1.0, 6.0, 8.0, 13.0, 15.0, 20.0, 22.0, 27.0]);
    assert_eq!(reals(output.channel(0).unwrap()), vec![1.0, 6.0, 8.0, 13.0]);
    assert_eq!(reals(output.channel(1).unwrap()), vec![15.0, 20.0, 22.0, 27.0]);
    assert!(output.channel(2).is_none());
    let copy = output.clone();
    assert_eq!(copy.values(), output.values());
}

#[test]
fn selecting_everything_changes_nothing() {
    let stats = BufStats::new(BufStatsConfig::default()).unwrap();
    let engine = bits(&[1.0, 2.0, 3.0, 4.0, 5.0, 6.0, 7.0]);
    let output = stats.finish(1, &engine);
    assert_eq!(output.values(), &engine[..]);
    assert_eq!(BufStatsSelect::all(), BufStatsSelect::default());
    assert_eq!(BufStatsSelect::all().selected_count(), 7);
    assert_eq!(BufStatsSelect::from_stats(&[]).selected_count(), 0);
}

#[test]
fn stat_indices_follow_the_fixed_order() {
    let order = [
        BufStat::Mean,
        BufStat::Std,
        BufStat::Skew,
        BufStat::Kurtosis,
        BufStat::Low,
        BufStat::Mid,
        BufStat::High,
    ];
    for (i, stat) in order.iter().enumerate() {
        assert_eq!(stat.index(), i);
        let select = BufStatsSelect::from_stats(&[*stat]);
        for slot in 0..7 {
            assert_eq!(select.keeps(slot), slot == i);
        }
    }
}

fn config_error(config: BufStatsConfig) -> Error {
    match BufStats::new(config) {
        Ok(_) => panic!("the settings should have been refused"),
        Err(e) => e,
    }
}

#[test]
fn settings_are_checked_when_given() {
    let base = BufStatsConfig::default();
    assert_eq!(validate_config(&base), Ok(()));
    assert_eq!(
        validate_config(&BufStatsConfig { num_derivatives: 3, ..base }),
        Err(Error::DerivativesOutOfRange)
    );
    assert_eq!(
        config_error(BufStatsConfig { num_derivatives: 3, ..base }),
        Error::DerivativesOutOfRange
    );
    assert_eq!(
        config_error(BufStatsConfig { low_percentile: (-0.5f64).to_bits(), ..base }),
        Error::LowPercentileOutOfRange
    );
    assert_eq!(
        config_error(BufStatsConfig { low_percentile: f64::NAN.to_bits(), ..base }),
        Error::LowPercentileOutOfRange
    );
    assert_eq!(
        config_error(BufStatsConfig { middle_percentile: 100.5f64.to_bits(), ..base }),
        Error::MiddlePercentileOutOfRange
    );
    assert_eq!(
        config_error(BufStatsConfig { high_percentile: f64::INFINITY.to_bits(), ..base }),
        Error::HighPercentileOutOfRange
    );
    assert_eq!(
        config_error(BufStatsConfig { low_percentile: 60.0f64.to_bits(), ..base }),
        Error::LowAboveMiddle
    );
    assert_eq!(
        config_error(BufStatsConfig { high_percentile: 40.0f64.to_bits(), ..base }),
        Error::MiddleAboveHigh
    );
    // Negative zero is zero.
    assert!(BufStats::new(BufStatsConfig { low_percentile: (-0.0f64).to_bits(), ..base }).is_ok());

    let mut stats = BufStats::new(base).unwrap();
    assert_eq!(
        stats.set_config(BufStatsConfig { num_derivatives: 7, ..base }),
        Err(Error::DerivativesOutOfRange)
    );
    assert_eq!(stats.config().num_derivatives, 0);
    assert_eq!(stats.set_config(BufStatsConfig { num_derivatives: 2, ..base }), Ok(()));
    assert_eq!(stats.config().num_derivatives, 2);
}

fn process_error(config: BufStatsConfig, len: usize, frames: usize, channels: usize) -> Error {
    let stats = BufStats::new(config).unwrap();
    let source = vec![0u64; len];
    match stats.process(&source, frames, channels, None) {
        Ok(_) => panic!("the source should have been refused"),
        Err(e) => e,
    }
}

#[test]
fn sources_are_refused_in_order() {
    let base = BufStatsConfig::default();
    assert_eq!(process_error(base, 0, 0, 0), Error::SourceFramesZero);
    assert_eq!(process_error(base, 0, 4, 0), Error::SourceChannelsZero);
    assert_eq!(process_error(base, 7, 4, 2), Error::SourceLengthMismatch);
    assert_eq!(
        process_error(BufStatsConfig { start_frame: 4, ..base }, 8, 4, 2),
        Error::StartFrameOutOfRange
    );
    assert_eq!(
        process_error(BufStatsConfig { num_frames: Some(0), ..base }, 8, 4, 2),
        Error::FrameSpanZero
    );
    assert_eq!(
        process_error(BufStatsConfig { start_frame: 2, num_frames: Some(3), ..base }, 8, 4, 2),
        Error::FrameSpanOutOfRange
    );
    assert_eq!(
        process_error(
            BufStatsConfig { start_frame: 1, num_frames: Some(usize::MAX), ..base },
            8,
            4,
            2
        ),
        Error::FrameSpanOutOfRange
    );
    assert_eq!(
        process_error(BufStatsConfig { num_frames: Some(2), num_derivatives: 2, ..base }, 8, 4, 2),
        Error::FrameSpanTooShort
    );
    assert_eq!(
        process_error(BufStatsConfig { start_channel: 2, ..base }, 8, 4, 2),
        Error::StartChannelOutOfRange
    );
    assert_eq!(
        process_error(BufStatsConfig { num_channels: Some(0), ..base }, 8, 4, 2),
        Error::ChannelCountZero
    );
    assert_eq!(
        process_error(BufStatsConfig { start_channel: 1, num_channels: Some(2), ..base }, 8, 4, 2),
        Error::ChannelSpanOutOfRange
    );
    assert_eq!(
        process_error(BufStatsConfig { select: BufStatsSelect::from_stats(&[]), ..base }, 8, 4, 2),
        Error::NothingSelected
    );
    let stats = BufStats::new(base).unwrap();
    let source = vec![0u64; 8];
    let weights = bits(&[1.0, 1.0, 1.0]);
    assert!(matches!(
        stats.process(&source, 4, 2, Some(&weights)),
        Err(Error::WeightsSpanMismatch)
    ));
    assert_eq!(
        Error::WeightsSpanMismatch.message(),
        "weights length must match selected frame span"
    );
}
