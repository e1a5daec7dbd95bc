use oscar_bio_dev::ieee754::{
    f64_from_f32_bits, f64_from_int, f64_from_u32, f64_in_closed_range, f64_le,
};

fn f32_samples() -> Vec<f32> {
    let mut v = vec![
        0.0,
        -0.0,
        1.0,
        -1.0,
        0.1,
        -0.1,
        7.2,
        1013.25,
        f32::MIN_POSITIVE,
        -f32::MIN_POSITIVE,
        f32::from_bits(1),
        f32::from_bits(0x8000_0001),
        f32::from_bits(0x007F_FFFF),
        f32::from_bits(0x0000_1234),
        f32::MAX,
        f32::MIN,
        f32::EPSILON,
        f32::INFINITY,
        f32::NEG_INFINITY,
    ];
    let mut x: u32 = 0x1234_5678;
    for _ in 0..2000 {
        x = x.wrapping_mul(1_664_525).wrapping_add(1_013_904_223);
        v.push(f32::from_bits(x));
    }
    v
}

#[test]
fn widening_matches_the_hardware_conversion() {
    for x in f32_samples() {
        let w = f64_from_f32_bits(x.to_bits());
        if x.is_nan() {
            assert!(f64::from_bits(w).is_nan());
        } else {
            assert_eq!(w, f64::from(x).to_bits(), "{x:e}");
        }
    }
}

#[test]
fn widening_keeps_nans() {
    for b in [0x7FC0_0000u32, 0x7F80_0001, 0xFFC0_0001, 0x7FFF_FFFF] {
        assert!(f64::from_bits(f64_from_f32_bits(b)).is_nan());
    }
}

#[test]
fn integers_convert_exactly() {
    for n in [0i64, 1, -1, 2, 3, 400, -50, 40_000, 50_000_000, 4_503_599_627_370_496, -4_503_599_627_370_496, 4_503_599_627_370_495] {
        assert_eq!(f64_from_int(n), (n as f64).to_bits(), "{n}");
    }
    for n in [0u32, 1, 800, 65_535, u32::MAX, 0x8000_0000] {
        assert_eq!(f64_from_u32(n), f64::from(n).to_bits(), "{n}");
    }
}

fn f64_samples() -> Vec<f64> {
    let mut v = vec![
        0.0,
        -0.0,
        1.0,
        -1.0,
        14.0,
        14.000000000000002,
        13.999999999999998,
        -50.0,
        150.0,
        f64::MIN_POSITIVE,
        f64::from_bits(1),
        -f64::from_bits(1),
        f64::MAX,
        f64::MIN,
    ];
    let mut x: u64 = 0x0123_4567_89AB_CDEF;
    for _ in 0..2000 {
        x = x.wrapping_mul(6_364_136_223_846_793_005).wrapping_add(1_442_695_040_888_963_407);
        let f = f64::from_bits(x);
        if f.is_finite() {
            v.push(f);
        }
    }
    v
}

#[test]
fn comparison_matches_the_hardware() {
    let s = f64_samples();
    for a in &s {
        for b in s.iter().take(60) {
            assert_eq!(f64_le(a.to_bits(), b.to_bits()), a <= b, "{a:e} <= {b:e}");
        }
    }
}

#[test]
fn range_test_matches_the_hardware() {
    let mut s = f64_samples();
    s.extend([f64::NAN, f64::INFINITY, f64::NEG_INFINITY, -f64::NAN]);
    for (lo, hi) in [(0i64, 14i64), (-50, 150), (300, 1100), (0, 50_000_000), (5, 1)] {
        for x in &s {
            let expected = !x.is_nan() && (lo as f64..=hi as f64).contains(x);
            assert_eq!(f64_in_closed_range(x.to_bits(), lo, hi), expected, "{x:e} in [{lo}, {hi}]");
        }
    }
}

#[test]
fn widened_nans_keep_sign_and_payload_and_are_quiet() {
    assert_eq!(f64_from_f32_bits(0x7FC0_0000), 0x7FF8_0000_0000_0000);
    assert_eq!(f64_from_f32_bits(0xFFC0_0000), 0xFFF8_0000_0000_0000);
    assert_eq!(f64_from_f32_bits(0x7F80_0001), 0x7FF8_0000_2000_0000);
    assert_eq!(f64_from_f32_bits(0x7FC0_0001), 0x7FF8_0000_2000_0000);
    assert_eq!(f64_from_f32_bits(0xFFFF_FFFF), 0xFFFF_FFFF_E000_0000);
    for b in [0x7FC0_0000u32, 0xFFC0_0000, 0x7FC0_1234, 0xFFFF_FFFF] {
        assert_eq!(f64_from_f32_bits(b), f64::from(f32::from_bits(b)).to_bits(), "{b:#x}");
    }
}
