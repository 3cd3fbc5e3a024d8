use helix::utils::{I16MathExt, I32MathExt, I8MathExt, U16MathExt};

#[test]
fn test_ursi32() {
    assert_eq!(5i32.ushr(2), 1);
    assert_eq!((-1 * 5i32).ushr(2), 1073741822);
    assert_eq!(9i32.ushr(2), 2);
    assert_eq!((-1 * 9i32).ushr(2), 1073741821);
}

#[test]
fn test_ursi16() {
    assert_eq!(5i16.ushr(2), 1);
    assert_eq!((-1 * 5i16).ushr(2), 16382);
    assert_eq!(9i16.ushr(2), 2);
    assert_eq!((-1 * 9i16).ushr(2), 16381);
}

#[test]
fn test_ursi8() {
    assert_eq!(5i8.ushr(2), 1);
    assert_eq!((-1 * 5i8).ushr(2), 62);
    assert_eq!(9i8.ushr(2), 2);
    assert_eq!((-1 * 9i8).ushr(2), 61);
}

#[test]
fn u16_shifts_are_logical() {
    assert_eq!(0x8000u16.shr(15), 1);
    assert_eq!(0xFFFFu16.ushr(4), 0x0FFF);
    assert_eq!(0x1234u16.shr(0), 0x1234);
}

#[test]
fn ushr_of_minus_one_is_all_ones_shifted() {
    assert_eq!((-1i32).ushr(31), 1);
    assert_eq!((-1i8).ushr(7), 1);
    assert_eq!((-128i8).ushr(3), 16);
}
