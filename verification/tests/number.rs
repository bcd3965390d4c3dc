use bevy_mod_props::number::Number;
use std::cmp::Ordering;

fn num(x: f32) -> Number {
    Number::from_bits(x.to_bits())
}

fn samples() -> Vec<f32> {
    vec![
        0.0,
        -0.0,
        1.0,
        -1.0,
        0.5,
        -0.5,
        3.0,
        -3.0,
        1.0e-40,
        -1.0e-40,
        f32::MIN_POSITIVE,
        f32::MAX,
        f32::MIN,
        f32::EPSILON,
        f32::INFINITY,
        f32::NEG_INFINITY,
        f32::NAN,
        -f32::NAN,
        f32::from_bits(0x7f80_0001),
        f32::from_bits(0xffff_ffff),
    ]
}

#[test]
fn from_bits_and_to_bits_are_inverse() {
    for bits in [0u32, 1, 0x3f80_0000, 0x7f80_0000, 0x8000_0000, 0xffff_ffff] {
        assert_eq!(Number::from_bits(bits).to_bits(), bits);
        assert_eq!(Number::from_bits(bits).bits, bits);
    }
}

#[test]
fn default_number_is_positive_zero() {
    assert_eq!(Number::default().to_bits(), 0.0f32.to_bits());
}

#[test]
fn nan_is_told_from_the_bits() {
    for x in samples() {
        assert_eq!(num(x).nan(), x.is_nan(), "{x:?}");
    }
    assert!(!Number::from_bits(0x7f80_0000).nan());
    assert!(Number::from_bits(0x7f80_0001).nan());
    assert!(!Number::from_bits(0xff80_0000).nan());
    assert!(Number::from_bits(0xff80_0001).nan());
}

#[test]
fn equality_matches_ieee() {
    for x in samples() {
        for y in samples() {
            assert_eq!(num(x) == num(y), x == y, "{x:?} == {y:?}");
            assert_eq!(num(x) != num(y), x != y, "{x:?} != {y:?}");
        }
    }
}

#[test]
fn zeros_are_equal() {
    assert!(num(0.0) == num(-0.0));
    assert_eq!(num(0.0).partial_cmp(&num(-0.0)), Some(Ordering::Equal));
}

#[test]
fn order_matches_ieee() {
    for x in samples() {
        for y in samples() {
            assert_eq!(num(x).partial_cmp(&num(y)), x.partial_cmp(&y), "{x:?} ? {y:?}");
            assert_eq!(num(x) < num(y), x < y, "{x:?} < {y:?}");
            assert_eq!(num(x) <= num(y), x <= y, "{x:?} <= {y:?}");
            assert_eq!(num(x) > num(y), x > y, "{x:?} > {y:?}");
            assert_eq!(num(x) >= num(y), x >= y, "{x:?} >= {y:?}");
        }
    }
}

#[test]
fn order_of_chosen_numbers() {
    assert_eq!(num(1.0).partial_cmp(&num(2.0)), Some(Ordering::Less));
    assert_eq!(num(2.0).partial_cmp(&num(1.0)), Some(Ordering::Greater));
    assert_eq!(num(-2.0).partial_cmp(&num(-1.0)), Some(Ordering::Less));
    assert_eq!(num(-1.0).partial_cmp(&num(1.0)), Some(Ordering::Less));
    assert_eq!(num(f32::NEG_INFINITY).partial_cmp(&num(f32::MIN)), Some(Ordering::Less));
    assert_eq!(num(f32::MAX).partial_cmp(&num(f32::INFINITY)), Some(Ordering::Less));
    assert_eq!(num(f32::NAN).partial_cmp(&num(1.0)), None);
    assert_eq!(num(1.0).partial_cmp(&num(f32::NAN)), None);
    assert_eq!(num(f32::NAN).partial_cmp(&num(f32::NAN)), None);
}

#[test]
fn neg_flips_the_sign_bit() {
    for x in samples() {
        assert_eq!(num(x).neg().to_bits(), (-x).to_bits(), "{x:?}");
    }
    assert_eq!(num(0.0).neg().to_bits(), 0x8000_0000);
    assert_eq!(num(2.5).neg().to_bits(), (-2.5f32).to_bits());
}
