use tidec::size_and_align::{AbiAndPrefAlign, Align, AlignError, Size};
use tidec::syntax::{scalar_mask_of, RawScalarValue};

#[test]
fn size_from_bits_rounds_up() {
    assert_eq!(Size::from_bits(7).bytes(), 1);
    assert_eq!(Size::from_bits(17).bytes(), 3);
    assert_eq!(Size::from_bits(0).bytes(), 0);
    assert_eq!(Size::from_bits(8).bytes(), 1);
    assert_eq!(Size::from_bits(128).bytes(), 16);
}

#[test]
fn align_from_bytes_zero_is_the_sentinel() {
    let a = Align::from_bytes(0);
    assert!(matches!(a, Ok(v) if v.bytes() == 0));
}

#[test]
fn align_from_bytes_three_is_not_a_power_of_two() {
    assert_eq!(Align::from_bytes(3), Err(AlignError::NotPowerOfTwo(3)));
}

#[test]
fn align_from_bytes_accepts_powers_of_two() {
    for k in [1u64, 2, 4, 8, 16, 1 << 20] {
        assert_eq!(Align::from_bytes(k), Ok(Align(k)));
    }
}

#[test]
fn align_from_bytes_too_large() {
    // A power of two beyond what address arithmetic tolerates.
    assert_eq!(
        Align::from_bytes(1 << 62),
        Err(AlignError::TooLarge(1 << 62))
    );
    // A non-power-of-two of that magnitude is refused as such first.
    assert_eq!(
        Align::from_bytes((1 << 62) + 1),
        Err(AlignError::NotPowerOfTwo((1 << 62) + 1))
    );
}

#[test]
fn align_from_bits_counts_in_bits() {
    assert_eq!(Align::from_bits(32), Ok(Align(4)));
    assert_eq!(Align::from_bits(64), Ok(Align(8)));
    assert_eq!(Align::from_bits(0), Ok(Align(0)));
    assert_eq!(Align::from_bits(24), Err(AlignError::NotPowerOfTwo(3)));
}

#[test]
fn abi_and_pref_align_counts_in_bytes() {
    let a = AbiAndPrefAlign::new(8, 8);
    assert_eq!(a.abi.bytes(), 8);
    assert_eq!(a.pref.bytes(), 8);
    let b = AbiAndPrefAlign::new(0, 16);
    assert_eq!(b.abi.bytes(), 0);
    assert_eq!(b.pref.bytes(), 16);
}

#[test]
fn scalar_masks() {
    assert_eq!(scalar_mask_of(0), 0);
    assert_eq!(scalar_mask_of(1), 0xff);
    assert_eq!(scalar_mask_of(4), 0xffff_ffff);
    assert_eq!(scalar_mask_of(16), u128::MAX);
}

#[test]
fn raw_scalar_round_trip() {
    // Materializing the low bytes and reading them back preserves the
    // masked value.
    let v = RawScalarValue::new(0xDEAD_BEEF, 4);
    assert_eq!(v.size, 4);
    assert_eq!(v.data, 0xDEAD_BEEF);
    assert_eq!(v.to_bits(Size(4)), 0xDEAD_BEEF);

    // Bytes beyond the declared size are dropped.
    let w = RawScalarValue::new(0x1FF, 1);
    assert_eq!(w.data, 0xFF);

    let x = RawScalarValue::new(u128::MAX, 16);
    assert_eq!(x.data, u128::MAX);
}
