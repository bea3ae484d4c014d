use lunatech::binary32::{clamp_unit, finite, finite_or_zero, positive, INFINITY, ONE, SIGN, ZERO};

#[test]
fn constants_are_the_patterns_they_name() {
    assert_eq!(ONE, 1.0f32.to_bits());
    assert_eq!(ZERO, 0.0f32.to_bits());
    assert_eq!(INFINITY, f32::INFINITY.to_bits());
    assert_eq!(SIGN, (-0.0f32).to_bits());
}

#[test]
fn positive_agrees_with_the_comparison() {
    let values = [
        0.0f32,
        -0.0,
        1.0,
        -1.0,
        f32::MIN_POSITIVE,
        -f32::MIN_POSITIVE,
        1.0e-45,
        -1.0e-45,
        f32::MAX,
        f32::MIN,
        f32::INFINITY,
        f32::NEG_INFINITY,
        f32::NAN,
        -f32::NAN,
        0.333,
        -42.0,
    ];
    for x in values {
        assert_eq!(positive(x.to_bits()), x > 0.0, "{x}");
    }
}

#[test]
fn finite_agrees_with_the_float() {
    let values = [
        0.0f32,
        -0.0,
        1.0,
        -1.0,
        1.0e-45,
        f32::MAX,
        f32::MIN,
        f32::INFINITY,
        f32::NEG_INFINITY,
        f32::NAN,
        -f32::NAN,
    ];
    for x in values {
        assert_eq!(finite(x.to_bits()), x.is_finite(), "{x}");
    }
    assert!(!finite(0x7F80_0001));
    assert!(!finite(0xFFFF_FFFF));
    assert!(finite(0x7F7F_FFFF));
    assert!(finite(0xFF7F_FFFF));
}

#[test]
fn clamp_unit_agrees_with_the_float_clamp() {
    let values = [
        0.0f32,
        1.0,
        0.5,
        1.0e-45,
        f32::MIN_POSITIVE,
        0.999_999_94,
        1.000_000_1,
        2.0,
        f32::MAX,
        f32::INFINITY,
        -1.0e-45,
        -0.5,
        -1.0,
        f32::MIN,
        f32::NEG_INFINITY,
    ];
    for x in values {
        let got = f32::from_bits(clamp_unit(x.to_bits()));
        assert_eq!(got, x.clamp(0.0, 1.0), "{x}");
    }
}

#[test]
fn clamp_unit_exact_patterns() {
    assert_eq!(clamp_unit(0.25f32.to_bits()), 0.25f32.to_bits());
    assert_eq!(clamp_unit(0x3F80_0000), 0x3F80_0000);
    assert_eq!(clamp_unit(0x3F80_0001), 0x3F80_0000);
    assert_eq!(clamp_unit(0x7F80_0000), 0x3F80_0000);
    assert_eq!(clamp_unit(0x7F80_0001), 0);
    assert_eq!(clamp_unit(0x7FC0_0000), 0);
    assert_eq!(clamp_unit(0xFFC0_0000), 0);
    assert_eq!(clamp_unit(0x8000_0000), 0);
    assert_eq!(clamp_unit(0xBF80_0000), 0);
    assert_eq!(clamp_unit(0), 0);
    assert_eq!(clamp_unit(1), 1);
}

#[test]
fn finite_or_zero_exact_patterns() {
    assert_eq!(finite_or_zero(3.5f32.to_bits()), 3.5f32.to_bits());
    assert_eq!(finite_or_zero((-3.5f32).to_bits()), (-3.5f32).to_bits());
    assert_eq!(finite_or_zero(0x8000_0000), 0x8000_0000);
    assert_eq!(finite_or_zero(0x7F7F_FFFF), 0x7F7F_FFFF);
    assert_eq!(finite_or_zero(0x7F80_0000), 0);
    assert_eq!(finite_or_zero(0xFF80_0000), 0);
    assert_eq!(finite_or_zero(0x7FC0_0000), 0);
    assert_eq!(finite_or_zero(0xFFFF_FFFF), 0);
}
