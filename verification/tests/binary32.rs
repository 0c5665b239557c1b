use kasi_kule::binary32::{less_than, INFINITY, ONE};

fn samples() -> Vec<f32> {
    vec![
        0.0,
        -0.0,
        1.0,
        -1.0,
        f32::MIN_POSITIVE,
        -f32::MIN_POSITIVE,
        f32::from_bits(1),
        f32::from_bits(0x8000_0001),
        f32::from_bits(0x007f_ffff),
        f32::MAX,
        f32::MIN,
        f32::INFINITY,
        f32::NEG_INFINITY,
        f32::NAN,
        f32::from_bits(0xffc0_0001),
        f32::from_bits(0x7f80_0001),
        20.14,
        20.139_999,
        90.0,
        164.25,
        237.53,
        360.0,
        0.5,
        0.499_999_97,
        1.000_000_1,
        -237.53,
        1.0e-40,
        -1.0e-40,
        3.0e38,
        -3.0e38,
    ]
}

#[test]
fn less_than_agrees_with_the_hardware() {
    let xs = samples();
    for &a in &xs {
        for &b in &xs {
            assert_eq!(less_than(a.to_bits(), b.to_bits()), a < b, "{:?} < {:?}", a, b);
        }
    }
}

#[test]
fn less_than_on_neighboring_patterns() {
    for bits in [0u32, 1, 0x007f_ffff, 0x0080_0000, 0x3f7f_ffff, 0x3f80_0000, 0x7f7f_ffff] {
        assert!(less_than(bits, bits + 1));
        assert!(!less_than(bits + 1, bits));
        assert!(!less_than(bits, bits));
        // The same with the sign bit set runs the other way.
        assert!(less_than((bits + 1) | 0x8000_0000, bits | 0x8000_0000));
        assert!(!less_than(bits | 0x8000_0000, (bits + 1) | 0x8000_0000));
    }
}

#[test]
fn zeros_are_equal() {
    assert!(!less_than(0x8000_0000, 0));
    assert!(!less_than(0, 0x8000_0000));
}

#[test]
fn nan_is_below_nothing_and_above_nothing() {
    for nan in [0x7fc0_0000u32, 0x7f80_0001, 0xffc0_0000, 0xffff_ffff] {
        for other in [0u32, ONE, INFINITY, 0xff80_0000, nan] {
            assert!(!less_than(nan, other));
            assert!(!less_than(other, nan));
        }
    }
}

#[test]
fn named_patterns() {
    assert_eq!(f32::from_bits(ONE), 1.0);
    assert_eq!(f32::from_bits(INFINITY), f32::INFINITY);
}
