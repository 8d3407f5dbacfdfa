use dlib_face_recognition::binary64::{
    encodes_nan, is_at_most, is_same_value, rank_of, INFINITY, SIGN_BIT, TOLERANCE, ZERO,
};

fn samples() -> Vec<f64> {
    vec![
        0.0,
        -0.0,
        0.6,
        0.5999999999999999,
        0.6000000000000001,
        1.0,
        -1.0,
        2.5,
        -2.5,
        11.313708498984761,
        f64::MIN_POSITIVE,
        -f64::MIN_POSITIVE,
        5e-324,
        -5e-324,
        f64::MAX,
        f64::MIN,
        f64::INFINITY,
        f64::NEG_INFINITY,
        f64::NAN,
        -f64::NAN,
    ]
}

#[test]
fn constants_encode_their_numbers() {
    assert_eq!(TOLERANCE, 0.6f64.to_bits());
    assert_eq!(ZERO, 0.0f64.to_bits());
    assert_eq!(INFINITY, f64::INFINITY.to_bits());
    assert_eq!(SIGN_BIT, (-0.0f64).to_bits());
}

#[test]
fn nan_is_told_from_numbers() {
    for x in samples() {
        assert_eq!(encodes_nan(x.to_bits()), x.is_nan(), "{x}");
    }
    assert!(encodes_nan(0x7FF0_0000_0000_0001));
    assert!(encodes_nan(0xFFFF_FFFF_FFFF_FFFF));
    assert!(!encodes_nan(0x7FF0_0000_0000_0000));
    assert!(!encodes_nan(0xFFF0_0000_0000_0000));
}

#[test]
fn order_of_bit_patterns_is_order_of_numbers() {
    for a in samples() {
        for b in samples() {
            let (x, y) = (a.to_bits(), b.to_bits());
            assert_eq!(is_at_most(x, y), a <= b, "{a} <= {b}");
            assert_eq!(is_same_value(x, y), a == b, "{a} == {b}");
        }
    }
}

#[test]
fn rank_grows_with_the_number() {
    assert_eq!(rank_of(0.0f64.to_bits()), 0);
    assert_eq!(rank_of((-0.0f64).to_bits()), 0);
    assert_eq!(rank_of(5e-324f64.to_bits()), 1);
    assert_eq!(rank_of((-5e-324f64).to_bits()), -1);
    assert_eq!(rank_of(1.0f64.to_bits()), 0x3FF0_0000_0000_0000);
    assert_eq!(rank_of((-1.0f64).to_bits()), -0x3FF0_0000_0000_0000);
    assert_eq!(rank_of(u64::MAX), -0x7FFF_FFFF_FFFF_FFFF);
    for a in samples() {
        for b in samples() {
            if !a.is_nan() && !b.is_nan() {
                assert_eq!(rank_of(a.to_bits()) < rank_of(b.to_bits()), a < b, "{a} < {b}");
            }
        }
    }
}

#[test]
fn tolerance_bounds_the_distances_that_match() {
    assert!(is_at_most(0.0f64.to_bits(), TOLERANCE));
    assert!(is_at_most(0.6f64.to_bits(), TOLERANCE));
    assert!(is_at_most(0.5999999999999999f64.to_bits(), TOLERANCE));
    assert!(!is_at_most(0.6000000000000001f64.to_bits(), TOLERANCE));
    assert!(!is_at_most(f64::NAN.to_bits(), TOLERANCE));
    assert!(!is_at_most(0.0f64.to_bits(), f64::NAN.to_bits()));
}
