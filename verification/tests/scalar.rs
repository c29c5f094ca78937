use kepler_core::scalar::{
    Scalar, G_BITS, HALF_BITS, INFINITY_BITS, MAGNITUDE_MASK, NEG_ONE_BITS, TWO_BITS,
};
use kepler_core::types::Color;
use kepler_core::vector::Vector2;

fn sc(x: f64) -> Scalar {
    Scalar::from_bits(x.to_bits())
}

fn samples() -> Vec<f64> {
    vec![
        0.0,
        -0.0,
        1.0,
        -1.0,
        0.5,
        6.674e-11,
        5.972e24,
        f64::MIN_POSITIVE,
        -f64::MIN_POSITIVE,
        f64::from_bits(1),
        f64::from_bits(0x8000_0000_0000_0001),
        f64::MAX,
        f64::MIN,
        f64::INFINITY,
        f64::NEG_INFINITY,
        f64::NAN,
        -f64::NAN,
        f64::from_bits(0x7FF0_0000_0000_0001),
        f64::from_bits(0xFFFF_FFFF_FFFF_FFFF),
    ]
}

#[test]
fn constants_hold_the_intended_numbers() {
    assert_eq!(f64::from_bits(G_BITS), 6.674e-11);
    assert_eq!(f64::from_bits(HALF_BITS), 0.5);
    assert_eq!(f64::from_bits(TWO_BITS), 2.0);
    assert_eq!(f64::from_bits(NEG_ONE_BITS), -1.0);
    assert_eq!(f64::from_bits(INFINITY_BITS), f64::INFINITY);
    assert_eq!(f64::from_bits(MAGNITUDE_MASK).to_bits(), (-f64::NAN).abs().to_bits() | MAGNITUDE_MASK);
    assert_eq!(Scalar::zero().to_bits(), 0.0f64.to_bits());
}

#[test]
fn equality_is_numeric_equality() {
    for a in samples() {
        for b in samples() {
            assert_eq!(sc(a) == sc(b), a == b, "{:?} == {:?}", a, b);
            assert_eq!(sc(a) != sc(b), a != b, "{:?} != {:?}", a, b);
        }
    }
}

#[test]
fn classification_agrees_with_the_hardware() {
    for a in samples() {
        assert_eq!(sc(a).is_nan(), a.is_nan(), "{:?}", a);
        assert_eq!(sc(a).is_zero(), a == 0.0, "{:?}", a);
    }
}

#[test]
fn abs_clears_the_sign() {
    for a in samples() {
        assert_eq!(sc(a).abs().to_bits(), a.abs().to_bits(), "{:?}", a);
    }
}

#[test]
fn bits_round_trip() {
    for a in samples() {
        assert_eq!(Scalar::from_bits(a.to_bits()).to_bits(), a.to_bits());
    }
}

#[test]
fn vectors_compare_by_component() {
    for a in samples() {
        for b in samples() {
            let left = Vector2::new(sc(a), sc(1.0));
            let right = Vector2::new(sc(b), sc(1.0));
            assert_eq!(left == right, a == b);
            let left = Vector2::new(sc(1.0), sc(a));
            let right = Vector2::new(sc(1.0), sc(b));
            assert_eq!(left == right, a == b);
        }
    }
    let zero = Vector2::zero();
    assert_eq!((zero.x.to_bits(), zero.y.to_bits()), (0, 0));
}

#[test]
fn colors_compare_by_channel() {
    let red = Color { r: 255, g: 0, b: 0 };
    assert_eq!(red, Color { r: 255, g: 0, b: 0 });
    assert_ne!(red, Color { r: 255, g: 0, b: 1 });
}
