use flucoma_rs::binary64::{
    at_most, clamp, equal, is_nan, is_positive, is_within, less_than, FIFTY, HUNDRED, INFINITY,
    MINUS_ONE, ONE, SIGN_BIT, ZERO,
};

fn samples() -> Vec<f64> {
    vec![
        0.0,
        -0.0,
        1.0,
        -1.0,
        0.5,
        -0.5,
        2.5,
        50.0,
        100.0,
        100.00000000000001,
        99.99999999999999,
        -100.0,
        1e300,
        -1e300,
        f64::MAX,
        f64::MIN,
        f64::MIN_POSITIVE,
        -f64::MIN_POSITIVE,
        f64::from_bits(1),
        f64::from_bits(1 | SIGN_BIT),
        f64::EPSILON,
        f64::INFINITY,
        f64::NEG_INFINITY,
        f64::NAN,
        -f64::NAN,
        f64::from_bits(0x7FF0_0000_0000_0001),
        f64::from_bits(0xFFFF_FFFF_FFFF_FFFF),
        f64::from_bits(0x7FFF_FFFF_FFFF_FFFF),
    ]
}

#[test]
fn constants_are_the_numbers_they_name() {
    assert_eq!(ZERO, 0.0f64.to_bits());
    assert_eq!(ONE, 1.0f64.to_bits());
    assert_eq!(MINUS_ONE, (-1.0f64).to_bits());
    assert_eq!(FIFTY, 50.0f64.to_bits());
    assert_eq!(HUNDRED, 100.0f64.to_bits());
    assert_eq!(INFINITY, f64::INFINITY.to_bits());
    assert_eq!(SIGN_BIT, (-0.0f64).to_bits());
}

#[test]
fn comparisons_agree_with_the_hardware() {
    for a in samples() {
        assert_eq!(is_nan(a.to_bits()), a.is_nan(), "is_nan({a})");
        assert_eq!(is_positive(a.to_bits()), a > 0.0, "is_positive({a})");
        for b in samples() {
            let (x, y) = (a.to_bits(), b.to_bits());
            assert_eq!(less_than(x, y), a < b, "{a} < {b}");
            assert_eq!(at_most(x, y), a <= b, "{a} <= {b}");
            assert_eq!(equal(x, y), a == b, "{a} == {b}");
        }
    }
}

#[test]
fn ranges_agree_with_the_hardware() {
    for x in samples() {
        assert_eq!(
            is_within(x.to_bits(), ZERO, HUNDRED),
            (0.0..=100.0).contains(&x),
            "{x} in [0, 100]"
        );
        let clamped = f64::from_bits(clamp(x.to_bits(), ZERO, ONE));
        let expected = x.clamp(0.0, 1.0);
        if expected.is_nan() {
            assert_eq!(clamped.to_bits(), x.to_bits());
        } else {
            assert_eq!(clamped.to_bits(), expected.to_bits(), "clamp({x})");
        }
    }
}

#[test]
fn clamp_keeps_what_lies_inside() {
    assert_eq!(clamp(0.25f64.to_bits(), ZERO, ONE), 0.25f64.to_bits());
    assert_eq!(clamp((-3.0f64).to_bits(), ZERO, ONE), ZERO);
    assert_eq!(clamp(7.0f64.to_bits(), ZERO, ONE), ONE);
    assert_eq!(clamp((-0.0f64).to_bits(), ZERO, ONE), (-0.0f64).to_bits());
}
