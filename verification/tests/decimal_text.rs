use leo_passes::decimal::{signed_text, unsigned_text};

#[test]
fn zero_is_one_digit() {
    assert_eq!(unsigned_text(0), "0");
    assert_eq!(signed_text(0), "0");
}

#[test]
fn digits_stand_with_the_most_significant_first() {
    assert_eq!(unsigned_text(7), "7");
    assert_eq!(unsigned_text(10), "10");
    assert_eq!(unsigned_text(1234567890), "1234567890");
    assert_eq!(unsigned_text(100_000), "100000");
    assert_eq!(signed_text(42), "42");
}

#[test]
fn a_negative_number_has_a_minus_sign() {
    assert_eq!(signed_text(-1), "-1");
    assert_eq!(signed_text(-10), "-10");
    assert_eq!(signed_text(-9876543210), "-9876543210");
}

#[test]
fn the_ends_of_the_widest_kinds() {
    assert_eq!(unsigned_text(u128::MAX), u128::MAX.to_string());
    assert_eq!(signed_text(i128::MAX), i128::MAX.to_string());
    assert_eq!(signed_text(i128::MIN), i128::MIN.to_string());
    assert_eq!(signed_text(i128::MIN), "-170141183460469231731687303715884105728");
}

#[test]
fn every_digit_is_written() {
    for n in 0..2000u128 {
        assert_eq!(unsigned_text(n), n.to_string());
    }
    for n in -2000..2000i128 {
        assert_eq!(signed_text(n), n.to_string());
    }
}
