use storage_gas::gas_algebra::{
    InternalGas, InternalGasPerArg, InternalGasPerByte, NumArgs, NumBytes,
};

#[test]
fn quantities_hold_their_values() {
    assert_eq!(NumBytes::new(7).value(), 7);
    assert_eq!(NumBytes::zero().value(), 0);
    assert_eq!(NumArgs::new(3).value(), 3);
    assert_eq!(InternalGas::new(9).value(), 9);
    assert_eq!(InternalGas::zero().value(), 0);
    assert_eq!(InternalGasPerByte::new(4).value(), 4);
    assert_eq!(InternalGasPerArg::new(5).value(), 5);
}

#[test]
fn sums_are_exact_in_range() {
    assert_eq!(InternalGas::new(100).plus(InternalGas::new(70)).value(), 170);
    assert_eq!(NumBytes::new(20).plus(NumBytes::new(2000)).value(), 2020);
}

#[test]
fn sums_stop_at_the_maximum() {
    assert_eq!(
        InternalGas::new(u64::MAX).plus(InternalGas::new(1)).value(),
        u64::MAX
    );
    assert_eq!(
        NumBytes::new(u64::MAX - 1).plus(NumBytes::new(5)).value(),
        u64::MAX
    );
    assert_eq!(
        InternalGas::new(u64::MAX - 1).plus(InternalGas::new(1)).value(),
        u64::MAX
    );
}

#[test]
fn products_are_exact_in_range() {
    assert_eq!(InternalGasPerByte::new(3).times(NumBytes::new(996)).value(), 2988);
    assert_eq!(NumBytes::new(996).times(InternalGasPerByte::new(3)).value(), 2988);
    assert_eq!(InternalGasPerArg::new(50).times(NumArgs::new(1)).value(), 50);
    assert_eq!(InternalGasPerArg::new(50).times(NumArgs::new(0)).value(), 0);
}

#[test]
fn products_stop_at_the_maximum() {
    assert_eq!(
        InternalGasPerByte::new(u64::MAX).times(NumBytes::new(2)).value(),
        u64::MAX
    );
    assert_eq!(
        NumBytes::new(1 << 32).times(InternalGasPerByte::new(1 << 32)).value(),
        u64::MAX
    );
    assert_eq!(
        InternalGasPerArg::new(1 << 63).times(NumArgs::new(2)).value(),
        u64::MAX
    );
    assert_eq!(
        InternalGasPerByte::new(u64::MAX).times(NumBytes::new(0)).value(),
        0
    );
}

#[test]
fn checked_difference_fails_below_zero() {
    assert_eq!(
        NumBytes::new(2020).checked_sub(NumBytes::new(1024)),
        Some(NumBytes::new(996))
    );
    assert_eq!(
        NumBytes::new(1024).checked_sub(NumBytes::new(1024)),
        Some(NumBytes::zero())
    );
    assert_eq!(NumBytes::new(1023).checked_sub(NumBytes::new(1024)), None);
}

#[test]
fn saturating_difference_stops_at_zero() {
    assert_eq!(NumBytes::new(5).saturating_sub(NumBytes::new(9)).value(), 0);
    assert_eq!(NumBytes::new(9).saturating_sub(NumBytes::new(5)).value(), 4);
}
