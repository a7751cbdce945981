use flucoma_rs::error::Error;
use flucoma_rs::normalize::Normalize;
use flucoma_rs::robust_scale::RobustScale;
use flucoma_rs::scaler::ScaleCall;
use flucoma_rs::standardize::Standardize;

fn bits(values: &[f64]) -> Vec<u64> {
    values.iter().map(|v| v.to_bits()).collect()
}

/// Stands for a scaling engine: an affine map of each column, fitted on the
/// smallest and the largest value of the column, and its inverse.
struct AffineEngine {
    offset: Vec<f64>,
    scale: Vec<f64>,
}

impl AffineEngine {
    fn fit(data: &[f64], call: ScaleCall) -> Self {
        let mut offset = Vec::new();
        let mut scale = Vec::new();
        for c in 0..call.cols {
            let column: Vec<f64> = (0..call.rows).map(|r| data[r * call.cols + c]).collect();
            let lo = column.iter().cloned().fold(f64::INFINITY, f64::min);
            let hi = column.iter().cloned().fold(f64::NEG_INFINITY, f64::max);
            offset.push(lo);
            scale.push(hi - lo);
        }
        AffineEngine { offset, scale }
    }

    fn process(&self, data: &[f64], call: ScaleCall) -> Vec<f64> {
        assert_eq!(data.len(), call.rows * call.cols);
        data.iter()
            .enumerate()
            .map(|(i, x)| {
                let c = i % call.cols;
                if call.inverse {
                    x * self.scale[c] + self.offset[c]
                } else {
                    (x - self.offset[c]) / self.scale[c]
                }
            })
            .collect()
    }
}

#[test]
fn normalize_then_inverse_returns_input() {
    // 3 points x 2 dims (row-major)
    let data = vec![1.0, 10.0, 3.0, 20.0, 5.0, 30.0];
    let mut n = Normalize::new(0.0f64.to_bits(), 1.0f64.to_bits()).unwrap();
    let forward = n.fit_transform(&bits(&data), 3, 2).unwrap();
    assert_eq!(forward, ScaleCall { rows: 3, cols: 2, inverse: false });
    assert!(n.is_fitted());
    let engine = AffineEngine::fit(&data, forward);
    let norm = engine.process(&data, forward);
    let backward = n.inverse_transform(&bits(&norm), 3, 2).unwrap();
    assert_eq!(backward, ScaleCall { rows: 3, cols: 2, inverse: true });
    let inv = engine.process(&norm, backward);
    for (a, b) in data.iter().zip(inv.iter()) {
        assert!((a - b).abs() < 1e-9, "expected {a}, got {b}");
    }
}

#[test]
fn normalize_transform_before_fit_fails() {
    let n = Normalize::new(0.0f64.to_bits(), 1.0f64.to_bits()).unwrap();
    let err = n.transform(&bits(&[1.0, 2.0]), 1, 2).unwrap_err();
    assert_eq!(err.message(), "normalizer is not fitted");
    let err = n.inverse_transform(&bits(&[1.0, 2.0]), 1, 2).unwrap_err();
    assert_eq!(err, Error::NormalizerNotFitted);
    assert!(!n.is_fitted());
}

#[test]
fn standardize_then_inverse_returns_input() {
    let data = vec![1.0, 10.0, 3.0, 20.0, 5.0, 30.0];
    let mut s = Standardize::new().unwrap();
    let forward = s.fit_transform(&bits(&data), 3, 2).unwrap();
    assert_eq!(forward, ScaleCall { rows: 3, cols: 2, inverse: false });
    let engine = AffineEngine::fit(&data, forward);
    let z = engine.process(&data, forward);
    let backward = s.inverse_transform(&bits(&z), 3, 2).unwrap();
    assert_eq!(backward, ScaleCall { rows: 3, cols: 2, inverse: true });
    let inv = engine.process(&z, backward);
    for (a, b) in data.iter().zip(inv.iter()) {
        assert!((a - b).abs() < 1e-9, "expected {a}, got {b}");
    }
}

#[test]
fn standardize_transform_before_fit_fails() {
    let s = Standardize::new().unwrap();
    let err = s.transform(&bits(&[1.0, 2.0]), 1, 2).unwrap_err();
    assert_eq!(err.message(), "standardizer is not fitted");
    let err = s.inverse_transform(&bits(&[1.0, 2.0]), 1, 2).unwrap_err();
    assert_eq!(err, Error::StandardizerNotFitted);
}

#[test]
fn robust_scale_then_inverse_returns_input() {
    let data = vec![1.0, 10.0, 3.0, 20.0, 5.0, 30.0, 1000.0, -999.0];
    let mut r = RobustScale::new(25.0f64.to_bits(), 75.0f64.to_bits()).unwrap();
    let forward = r.fit_transform(&bits(&data), 4, 2).unwrap();
    assert_eq!(forward, ScaleCall { rows: 4, cols: 2, inverse: false });
    let engine = AffineEngine::fit(&data, forward);
    let scaled = engine.process(&data, forward);
    let backward = r.inverse_transform(&bits(&scaled), 4, 2).unwrap();
    assert_eq!(backward, ScaleCall { rows: 4, cols: 2, inverse: true });
    let inv = engine.process(&scaled, backward);
    for (a, b) in data.iter().zip(inv.iter()) {
        assert!((a - b).abs() < 1e-8, "expected {a}, got {b}");
    }
}

#[test]
fn robust_scale_transform_before_fit_fails() {
    let r = RobustScale::new(25.0f64.to_bits(), 75.0f64.to_bits()).unwrap();
    let err = r.transform(&bits(&[1.0, 2.0]), 1, 2).unwrap_err();
    assert_eq!(err.message(), "robust scaler is not fitted");
    let err = r.inverse_transform(&bits(&[1.0, 2.0]), 1, 2).unwrap_err();
    assert_eq!(err, Error::RobustScalerNotFitted);
}

#[test]
fn range_ends_must_differ_as_numbers() {
    let p = |v: f64| v.to_bits();
    assert_eq!(Normalize::new(p(1.0), p(1.0)).unwrap_err(), Error::RangeEmpty);
    assert_eq!(Normalize::new(p(0.0), p(-0.0)).unwrap_err(), Error::RangeEmpty);
    assert_eq!(Error::RangeEmpty.message(), "min and max must be different");
    // A NaN equals nothing, itself included.
    assert!(Normalize::new(p(f64::NAN), p(f64::NAN)).is_ok());
    let n = Normalize::new(p(-1.0), p(1.0)).unwrap();
    assert_eq!(n.range(), (p(-1.0), p(1.0)));
    // The range may run downwards.
    assert!(Normalize::new(p(1.0), p(0.0)).is_ok());
}

#[test]
fn percentiles_are_refused_in_order() {
    let p = |v: f64| v.to_bits();
    assert_eq!(
        RobustScale::new(p(-1.0), p(101.0)).unwrap_err(),
        Error::LowPercentileOutOfRange
    );
    assert_eq!(
        RobustScale::new(p(1.0), p(101.0)).unwrap_err(),
        Error::HighPercentileOutOfRange
    );
    assert_eq!(RobustScale::new(p(75.0), p(25.0)).unwrap_err(), Error::LowAboveHigh);
    assert_eq!(Error::LowAboveHigh.message(), "low_percentile must be <= high_percentile");
    let r = RobustScale::new(p(0.0), p(100.0)).unwrap();
    assert_eq!(r.percentiles(), (p(0.0), p(100.0)));
    assert!(RobustScale::new(p(50.0), p(50.0)).is_ok());
}

#[test]
fn fit_refuses_misshapen_matrices_and_keeps_the_state() {
    let data = vec![0u64; 6];
    let mut s = Standardize::new().unwrap();
    assert_eq!(s.fit(&data, 0, 2), Err(Error::RowsZero));
    assert_eq!(s.fit(&data, 3, 0), Err(Error::ColsZero));
    assert_eq!(s.fit(&data, 4, 2), Err(Error::DataLengthMismatch));
    assert_eq!(s.fit(&data, usize::MAX, usize::MAX), Err(Error::DataLengthMismatch));
    assert!(!s.is_fitted());
    assert_eq!(s.fit_transform(&data, 4, 2), Err(Error::DataLengthMismatch));
    assert!(!s.is_fitted());
    assert_eq!(s.fit(&data, 3, 2), Ok(()));
    assert!(s.is_fitted());
    assert_eq!(s.fit(&data, 5, 2), Err(Error::DataLengthMismatch));
    assert!(s.is_fitted());
    assert_eq!(s.transform(&data, 3, 2), Ok(ScaleCall { rows: 3, cols: 2, inverse: false }));
    // A second fit binds the scaler anew.
    assert_eq!(s.fit(&data, 2, 3), Ok(()));
    assert_eq!(s.transform(&data, 3, 2), Err(Error::ColsMismatch));
    assert_eq!(s.transform(&data, 2, 3), Ok(ScaleCall { rows: 2, cols: 3, inverse: false }));
}

#[test]
fn transform_refuses_in_order() {
    let data = vec![0u64; 6];
    let mut n = Normalize::new(0.0f64.to_bits(), 1.0f64.to_bits()).unwrap();
    assert_eq!(n.transform(&data, 0, 0), Err(Error::NormalizerNotFitted));
    n.fit(&data, 3, 2).unwrap();
    assert_eq!(n.transform(&data, 0, 0), Err(Error::RowsZero));
    assert_eq!(n.transform(&data, 2, 0), Err(Error::ColsZero));
    assert_eq!(n.transform(&data, 2, 3), Err(Error::ColsMismatch));
    assert_eq!(n.transform(&data, 2, 2), Err(Error::DataLengthMismatch));
    assert_eq!(n.inverse_transform(&data, 2, 2), Err(Error::DataLengthMismatch));
    assert_eq!(Error::ColsMismatch.message(), "cols must match fitted feature dimension");
    // Any number of rows is taken, as long as the columns are the fitted ones.
    assert_eq!(
        n.transform(&data[..2], 1, 2),
        Ok(ScaleCall { rows: 1, cols: 2, inverse: false })
    );
}
