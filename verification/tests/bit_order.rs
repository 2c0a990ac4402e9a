//! The bit-level classification and ordering agree with binary64 semantics.

use brachistochrone::bits::abs_of_bits;
use brachistochrone::bits::eq_bits;
use brachistochrone::bits::is_finite_bits;
use brachistochrone::bits::is_nan_bits;
use brachistochrone::bits::is_zero_bits;
use brachistochrone::bits::lt_bits;

#[test]
fn finite_classification() {
    assert!(is_finite_bits(0.0f64.to_bits()));
    assert!(is_finite_bits((-0.0f64).to_bits()));
    assert!(is_finite_bits(1.5f64.to_bits()));
    assert!(is_finite_bits(f64::MAX.to_bits()));
    assert!(is_finite_bits(f64::MIN_POSITIVE.to_bits()));
    assert!(is_finite_bits(5e-324f64.to_bits()));
    assert!(!is_finite_bits(f64::INFINITY.to_bits()));
    assert!(!is_finite_bits(f64::NEG_INFINITY.to_bits()));
    assert!(!is_finite_bits(f64::NAN.to_bits()));
}

#[test]
fn nan_classification() {
    assert!(is_nan_bits(f64::NAN.to_bits()));
    assert!(!is_nan_bits(f64::INFINITY.to_bits()));
    assert!(!is_nan_bits(f64::NEG_INFINITY.to_bits()));
    assert!(!is_nan_bits(1.0f64.to_bits()));
    assert!(!is_nan_bits(0.0f64.to_bits()));
}

#[test]
fn zero_classification() {
    assert!(is_zero_bits(0.0f64.to_bits()));
    assert!(is_zero_bits((-0.0f64).to_bits()));
    assert!(!is_zero_bits(5e-324f64.to_bits()));
    assert!(!is_zero_bits(1.0f64.to_bits()));
}

#[test]
fn abs_clears_sign() {
    assert_eq!(abs_of_bits((-2.5f64).to_bits()), 2.5f64.to_bits());
    assert_eq!(abs_of_bits(2.5f64.to_bits()), 2.5f64.to_bits());
    assert_eq!(abs_of_bits((-0.0f64).to_bits()), 0.0f64.to_bits());
}

#[test]
fn order_matches_float_order() {
    let values = [
        f64::NEG_INFINITY,
        -1.7976931348623157e308,
        -3.25,
        -1.0,
        -5e-324,
        -0.0,
        0.0,
        5e-324,
        1.0,
        3.25,
        1.7976931348623157e308,
        f64::INFINITY,
    ];
    for &a in values.iter() {
        for &b in values.iter() {
            assert_eq!(
                lt_bits(a.to_bits(), b.to_bits()),
                a < b,
                "lt mismatch for {} and {}",
                a,
                b
            );
            assert_eq!(
                eq_bits(a.to_bits(), b.to_bits()),
                a == b,
                "eq mismatch for {} and {}",
                a,
                b
            );
        }
    }
}
