use sql_gateway::binary64::Binary64;

#[test]
fn bits_are_kept() {
    let x = Binary64::from_bits(0x4009_21fb_5444_2d18);
    assert_eq!(x.to_bits(), 0x4009_21fb_5444_2d18);
    assert_eq!(x.bits, 3.141592653589793f64.to_bits());
}

#[test]
fn largest_finite_number_is_finite() {
    assert!(Binary64::from_bits(0x7fef_ffff_ffff_ffff).is_finite());
    assert!(Binary64::from_bits(0xffef_ffff_ffff_ffff).is_finite());
    assert_eq!(f64::from_bits(0x7fef_ffff_ffff_ffff), f64::MAX);
}

#[test]
fn zeros_and_subnormals_are_finite() {
    assert!(Binary64::from_bits(0).is_finite());
    assert!(Binary64::from_bits(0x8000_0000_0000_0000).is_finite());
    assert!(Binary64::from_bits(1).is_finite());
    assert!(Binary64::from_bits(0x000f_ffff_ffff_ffff).is_finite());
}

#[test]
fn infinities_are_not_finite() {
    assert!(!Binary64::from_bits(0x7ff0_0000_0000_0000).is_finite());
    assert!(!Binary64::from_bits(0xfff0_0000_0000_0000).is_finite());
    assert!(!Binary64::from_bits(f64::INFINITY.to_bits()).is_finite());
    assert!(!Binary64::from_bits(f64::NEG_INFINITY.to_bits()).is_finite());
}

#[test]
fn nans_are_not_finite() {
    assert!(!Binary64::from_bits(0x7ff8_0000_0000_0000).is_finite());
    assert!(!Binary64::from_bits(0x7ff0_0000_0000_0001).is_finite());
    assert!(!Binary64::from_bits(0xffff_ffff_ffff_ffff).is_finite());
    assert!(!Binary64::from_bits(f64::NAN.to_bits()).is_finite());
}

#[test]
fn finiteness_agrees_with_the_machine() {
    let mut bits: u64 = 0x9e37_79b9_7f4a_7c15;
    for _ in 0..10_000 {
        bits = bits.wrapping_mul(6364136223846793005).wrapping_add(1442695040888963407);
        for candidate in [bits, bits | 0x7ff0_0000_0000_0000, bits & 0x800f_ffff_ffff_ffff] {
            assert_eq!(
                Binary64::from_bits(candidate).is_finite(),
                f64::from_bits(candidate).is_finite()
            );
        }
    }
}

#[test]
fn equality_is_of_bits() {
    assert_ne!(Binary64::from_bits(0.0f64.to_bits()), Binary64::from_bits((-0.0f64).to_bits()));
    let nan = Binary64::from_bits(f64::NAN.to_bits());
    assert_eq!(nan, nan);
}
