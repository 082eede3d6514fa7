use esp_disp_driver::utils::PrimInt;

#[test]
fn one_is_one_in_every_type() {
    assert_eq!(<u8 as PrimInt>::one(), 1u8);
    assert_eq!(<u16 as PrimInt>::one(), 1u16);
    assert_eq!(<u32 as PrimInt>::one(), 1u32);
    assert_eq!(<u64 as PrimInt>::one(), 1u64);
    assert_eq!(<u128 as PrimInt>::one(), 1u128);
    assert_eq!(<i8 as PrimInt>::one(), 1i8);
    assert_eq!(<i16 as PrimInt>::one(), 1i16);
    assert_eq!(<i32 as PrimInt>::one(), 1i32);
    assert_eq!(<i64 as PrimInt>::one(), 1i64);
    assert_eq!(<i128 as PrimInt>::one(), 1i128);
}

#[test]
fn at_most_is_less_or_equal() {
    assert!(PrimInt::at_most(3u8, 3u8));
    assert!(PrimInt::at_most(3u8, 4u8));
    assert!(!PrimInt::at_most(4u8, 3u8));
    assert!(PrimInt::at_most(-5i16, 0i16));
    assert!(!PrimInt::at_most(0i64, -1i64));
    assert!(PrimInt::at_most(u128::MAX, u128::MAX));
}

#[test]
fn checked_add_is_none_exactly_on_overflow() {
    assert_eq!(PrimInt::checked_add(200u8, 55u8), Some(255u8));
    assert_eq!(PrimInt::checked_add(200u8, 56u8), None);
    assert_eq!(PrimInt::checked_add(i8::MIN, -1i8), None);
    assert_eq!(PrimInt::checked_add(i8::MAX, 1i8), None);
    assert_eq!(PrimInt::checked_add(-100i8, 27i8), Some(-73i8));
    assert_eq!(PrimInt::checked_add(u32::MAX, 0u32), Some(u32::MAX));
    assert_eq!(PrimInt::checked_add(u64::MAX, 1u64), None);
    assert_eq!(PrimInt::checked_add(i128::MAX, 1i128), None);
}

#[test]
fn checked_sub_is_none_exactly_on_overflow() {
    assert_eq!(PrimInt::checked_sub(0u8, 1u8), None);
    assert_eq!(PrimInt::checked_sub(5u16, 5u16), Some(0u16));
    assert_eq!(PrimInt::checked_sub(i8::MIN, 1i8), None);
    assert_eq!(PrimInt::checked_sub(i32::MAX, -1i32), None);
    assert_eq!(PrimInt::checked_sub(-3i64, -3i64), Some(0i64));
    assert_eq!(PrimInt::checked_sub(0u128, 1u128), None);
}
