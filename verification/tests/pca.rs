use flucoma_rs::error::Error;
use flucoma_rs::pca::{validate_scaler_config, Pca, PcaConfig, PcaScaler};
use flucoma_rs::scaler::ScaleCall;

fn bits(values: &[f64]) -> Vec<u64> {
    values.iter().map(|v| v.to_bits()).collect()
}

fn reals(values: &[u64]) -> Vec<f64> {
    values.iter().map(|v| f64::from_bits(*v)).collect()
}

fn sample_data() -> Vec<u64> {
    // 8 x 3 row-major
    bits(&[
        1.0, 2.0, 0.9, //
        1.2, 2.2, 1.1, //
        0.8, 1.7, 0.7, //
        3.0, 3.2, 2.9, //
        2.8, 3.0, 2.6, //
        10.0, -8.0, 9.0, //
        2.9, 3.1, 2.7, //
        1.1, 2.1, 1.0,
    ])
}

#[test]
fn pca_fit_transform_works_without_scaler() {
    let data = sample_data();
    let mut p = Pca::new(PcaConfig::default()).unwrap();
    let call = p.fit_transform(&data, 8, 3, 2).unwrap();
    assert_eq!(call.output_len, 16);
    assert_eq!((call.rows, call.cols, call.target_dims), (8, 3, 2));
    assert_eq!(call.scaler, None);
    assert!(!call.whiten);
    assert!(p.is_fitted());
    assert_eq!(p.dims(), Some(3));
}

#[test]
fn pca_with_robust_scaler_inverse_roundtrip_shape() {
    let data = sample_data();
    let mut p = Pca::new(PcaConfig {
        whiten: false,
        scaler: PcaScaler::RobustScale {
            low_percentile: 25.0f64.to_bits(),
            high_percentile: 75.0f64.to_bits(),
        },
    })
    .unwrap();
    let forward = p.fit_transform(&data, 8, 3, 2).unwrap();
    assert_eq!(forward.output_len, 8 * 2);
    assert_eq!(forward.scaler, Some(ScaleCall { rows: 8, cols: 3, inverse: false }));
    // Stands for what the engine projected.
    let proj: Vec<u64> = bits(&(1..=16).map(|i| i as f64).collect::<Vec<f64>>());
    assert_eq!(proj.len(), forward.output_len);
    let inverse = p.inverse_transform(&proj, 8, 2).unwrap();
    assert_eq!(inverse.padded.len(), data.len());
    assert_eq!((inverse.rows, inverse.cols), (8, 3));
    assert_eq!(inverse.scaler, Some(ScaleCall { rows: 8, cols: 3, inverse: true }));
    assert_eq!(
        reals(&inverse.padded[..9]),
        vec![1.0, 2.0, 0.0, 3.0, 4.0, 0.0, 5.0, 6.0, 0.0]
    );
    assert_eq!(reals(&inverse.padded[21..]), vec![15.0, 16.0, 0.0]);
}

#[test]
fn pca_with_standardize_scaler_runs() {
    let data = sample_data();
    let mut p = Pca::new(PcaConfig { whiten: true, scaler: PcaScaler::Standardize }).unwrap();
    let call = p.fit_transform(&data, 8, 3, 2).unwrap();
    assert_eq!(call.output_len, 16);
    assert!(call.whiten);
    assert_eq!(call.scaler, Some(ScaleCall { rows: 8, cols: 3, inverse: false }));
    assert!(p.config().whiten);
}

#[test]
fn unfitted_model_refuses_everything() {
    let data = sample_data();
    let p = Pca::new(PcaConfig::default()).unwrap();
    assert!(!p.is_fitted());
    assert_eq!(p.dims(), None);
    assert_eq!(p.transform(&data, 8, 3, 2).unwrap_err(), Error::PcaNotFitted);
    assert_eq!(p.inverse_transform(&data, 8, 3).unwrap_err(), Error::PcaNotFitted);
    assert_eq!(Error::PcaNotFitted.message(), "PCA is not fitted");
}

#[test]
fn full_width_projection_is_taken_back_unpadded() {
    let data = sample_data();
    let mut p = Pca::new(PcaConfig {
        whiten: false,
        scaler: PcaScaler::Normalize { min: 0.0f64.to_bits(), max: 1.0f64.to_bits() },
    })
    .unwrap();
    p.fit(&data, 8, 3).unwrap();
    let forward = p.transform(&data, 8, 3, 3).unwrap();
    assert_eq!(forward.output_len, 24);
    let inverse = p.inverse_transform(&data, 8, 3).unwrap();
    assert_eq!(inverse.padded, data);
    let narrow = p.inverse_transform(&data[..8], 8, 1).unwrap();
    assert_eq!(narrow.padded.len(), 24);
    for r in 0..8 {
        assert_eq!(narrow.padded[r * 3], data[r]);
        assert_eq!(narrow.padded[r * 3 + 1], 0);
        assert_eq!(narrow.padded[r * 3 + 2], 0);
    }
}

#[test]
fn projection_is_refused_in_order() {
    let data = sample_data();
    let mut p = Pca::new(PcaConfig::default()).unwrap();
    assert_eq!(p.transform(&data, 0, 3, 2).unwrap_err(), Error::RowsZero);
    assert_eq!(p.transform(&data, 8, 0, 2).unwrap_err(), Error::ColsZero);
    assert_eq!(p.transform(&data, 8, 4, 2).unwrap_err(), Error::DataLengthMismatch);
    assert_eq!(p.fit(&data, 8, 4), Err(Error::DataLengthMismatch));
    assert!(!p.is_fitted());
    p.fit(&data, 8, 3).unwrap();
    assert_eq!(p.transform(&data, 6, 4, 2).unwrap_err(), Error::ColsMismatch);
    assert_eq!(p.transform(&data, 8, 3, 0).unwrap_err(), Error::TargetDimsZero);
    assert_eq!(p.transform(&data, 8, 3, 4).unwrap_err(), Error::TargetDimsAboveCols);
    assert_eq!(Error::TargetDimsAboveCols.message(), "target_dims must be <= input cols");
    // A refused target leaves a model that fit_transform has fitted.
    let mut q = Pca::new(PcaConfig::default()).unwrap();
    assert_eq!(q.fit_transform(&data, 8, 3, 4).unwrap_err(), Error::TargetDimsAboveCols);
    assert_eq!(q.dims(), Some(3));
}

#[test]
fn reconstruction_is_refused_in_order() {
    let data = sample_data();
    let mut p = Pca::new(PcaConfig::default()).unwrap();
    p.fit(&data, 8, 3).unwrap();
    assert_eq!(p.inverse_transform(&data, 0, 3).unwrap_err(), Error::RowsZero);
    assert_eq!(p.inverse_transform(&data, 8, 0).unwrap_err(), Error::ProjectedColsZero);
    assert_eq!(p.inverse_transform(&data, 8, 2).unwrap_err(), Error::ProjectedLengthMismatch);
    assert_eq!(p.inverse_transform(&data, 6, 4).unwrap_err(), Error::ProjectedColsAboveDims);
    assert_eq!(
        Error::ProjectedLengthMismatch.message(),
        "projected length does not match rows * projected_cols"
    );
}

#[test]
fn scaling_stage_is_checked_when_given() {
    let p = |v: f64| v.to_bits();
    assert_eq!(validate_scaler_config(PcaScaler::Unscaled), Ok(()));
    assert_eq!(validate_scaler_config(PcaScaler::default()), Ok(()));
    assert_eq!(validate_scaler_config(PcaScaler::Standardize), Ok(()));
    assert_eq!(
        validate_scaler_config(PcaScaler::Normalize { min: p(2.0), max: p(2.0) }),
        Err(Error::ScalerRangeEmpty)
    );
    assert_eq!(
        validate_scaler_config(PcaScaler::RobustScale {
            low_percentile: p(-1.0),
            high_percentile: p(200.0)
        }),
        Err(Error::ScalerLowPercentileOutOfRange)
    );
    assert_eq!(
        validate_scaler_config(PcaScaler::RobustScale {
            low_percentile: p(1.0),
            high_percentile: p(200.0)
        }),
        Err(Error::ScalerHighPercentileOutOfRange)
    );
    assert_eq!(
        validate_scaler_config(PcaScaler::RobustScale {
            low_percentile: p(75.0),
            high_percentile: p(25.0)
        }),
        Err(Error::ScalerLowAboveHigh)
    );
    assert_eq!(Error::ScalerRangeEmpty.message(), "Normalize scaler requires min != max");
    let refused = Pca::new(PcaConfig {
        whiten: false,
        scaler: PcaScaler::Normalize { min: p(0.0), max: p(-0.0) },
    });
    assert!(matches!(refused, Err(Error::ScalerRangeEmpty)));
}
