use leo_passes::error::ValueError;
use leo_passes::span::Span;
use leo_passes::value::Value;

fn at(lo: u32, hi: u32) -> Span {
    Span::new(lo, hi)
}

fn overflow(left: &str, op: &str, right: &str, right_type: &str, span: Span) -> ValueError {
    ValueError::OperationOverflow {
        left: left.to_string(),
        op: op.to_string(),
        right: right.to_string(),
        right_type: right_type.to_string(),
        span,
    }
}

#[test]
fn add_of_u8_overflows() {
    let result = Value::U8(250, at(0, 3)).add(Value::U8(10, at(6, 8)), at(0, 8));
    assert_eq!(result, Err(overflow("250", "+", "10", "u8", at(0, 8))));
}

#[test]
fn add_wrapped_of_u8_wraps() {
    let result = Value::U8(250, at(0, 3)).add_wrapped(Value::U8(10, at(6, 8)), at(0, 8));
    assert_eq!(result, Value::U8(4, at(0, 8)));
}

#[test]
fn add_of_i8_at_the_edge() {
    let s = at(1, 2);
    assert_eq!(Value::I8(100, s).add(Value::I8(27, s), s), Ok(Value::I8(127, s)));
    assert_eq!(Value::I8(100, s).add(Value::I8(20, s), s), Ok(Value::I8(120, s)));
    assert_eq!(Value::I8(100, s).add(Value::I8(28, s), s), Err(overflow("100", "+", "28", "i8", s)));
    assert_eq!(Value::I8(120, s).add(Value::I8(10, s), s), Err(overflow("120", "+", "10", "i8", s)));
    assert_eq!(Value::I8(-100, s).add(Value::I8(-28, s), s), Ok(Value::I8(-128, s)));
    assert_eq!(
        Value::I8(-100, s).add(Value::I8(-29, s), s),
        Err(overflow("-100", "+", "-29", "i8", s))
    );
}

#[test]
fn add_takes_the_span_it_is_given() {
    let result = Value::U32(1, at(10, 11)).add(Value::U32(2, at(14, 15)), at(10, 15));
    assert_eq!(result, Ok(Value::U32(3, at(10, 15))));
}

#[test]
fn add_of_every_kind() {
    let s = Span::dummy();
    assert_eq!(Value::I16(30000, s).add(Value::I16(2767, s), s), Ok(Value::I16(32767, s)));
    assert!(Value::I16(30000, s).add(Value::I16(2768, s), s).is_err());
    assert_eq!(Value::I32(i32::MAX - 1, s).add(Value::I32(1, s), s), Ok(Value::I32(i32::MAX, s)));
    assert!(Value::I32(i32::MAX, s).add(Value::I32(1, s), s).is_err());
    assert_eq!(Value::I64(-5, s).add(Value::I64(7, s), s), Ok(Value::I64(2, s)));
    assert!(Value::I64(i64::MIN, s).add(Value::I64(-1, s), s).is_err());
    assert_eq!(Value::I128(i128::MAX - 1, s).add(Value::I128(1, s), s), Ok(Value::I128(i128::MAX, s)));
    assert!(Value::I128(i128::MAX, s).add(Value::I128(1, s), s).is_err());
    assert_eq!(Value::U16(65000, s).add(Value::U16(535, s), s), Ok(Value::U16(65535, s)));
    assert!(Value::U16(65000, s).add(Value::U16(536, s), s).is_err());
    assert!(Value::U32(u32::MAX, s).add(Value::U32(1, s), s).is_err());
    assert_eq!(Value::U64(u64::MAX - 1, s).add(Value::U64(1, s), s), Ok(Value::U64(u64::MAX, s)));
    assert!(Value::U64(u64::MAX, s).add(Value::U64(1, s), s).is_err());
    assert!(Value::U128(u128::MAX, s).add(Value::U128(1, s), s).is_err());
}

#[test]
fn add_wrapped_of_every_kind() {
    let s = Span::dummy();
    assert_eq!(Value::I8(127, s).add_wrapped(Value::I8(1, s), s), Value::I8(-128, s));
    assert_eq!(Value::I8(-128, s).add_wrapped(Value::I8(-1, s), s), Value::I8(127, s));
    assert_eq!(Value::I16(i16::MAX, s).add_wrapped(Value::I16(1, s), s), Value::I16(i16::MIN, s));
    assert_eq!(Value::I32(i32::MAX, s).add_wrapped(Value::I32(2, s), s), Value::I32(i32::MIN + 1, s));
    assert_eq!(Value::I64(i64::MAX, s).add_wrapped(Value::I64(1, s), s), Value::I64(i64::MIN, s));
    assert_eq!(Value::I128(i128::MAX, s).add_wrapped(Value::I128(1, s), s), Value::I128(i128::MIN, s));
    assert_eq!(Value::U16(u16::MAX, s).add_wrapped(Value::U16(2, s), s), Value::U16(1, s));
    assert_eq!(Value::U32(u32::MAX, s).add_wrapped(Value::U32(1, s), s), Value::U32(0, s));
    assert_eq!(Value::U64(u64::MAX, s).add_wrapped(Value::U64(10, s), s), Value::U64(9, s));
    assert_eq!(Value::U128(u128::MAX, s).add_wrapped(Value::U128(1, s), s), Value::U128(0, s));
}

#[test]
fn sub_checks_the_range() {
    let s = at(3, 9);
    assert_eq!(Value::U8(10, s).sub(Value::U8(10, s), s), Ok(Value::U8(0, s)));
    assert_eq!(Value::U8(10, s).sub(Value::U8(11, s), s), Err(overflow("10", "-", "11", "u8", s)));
    assert_eq!(Value::I8(-128, s).sub(Value::I8(1, s), s), Err(overflow("-128", "-", "1", "i8", s)));
    assert_eq!(Value::I64(5, s).sub(Value::I64(7, s), s), Ok(Value::I64(-2, s)));
    assert_eq!(
        Value::U128(0, s).sub(Value::U128(1, s), s),
        Err(overflow("0", "-", "1", "u128", s))
    );
}

#[test]
fn sub_wrapped_wraps() {
    let s = at(3, 9);
    assert_eq!(Value::U8(10, s).sub_wrapped(Value::U8(11, s), s), Value::U8(255, s));
    assert_eq!(Value::I8(-128, s).sub_wrapped(Value::I8(1, s), s), Value::I8(127, s));
    assert_eq!(Value::U128(0, s).sub_wrapped(Value::U128(1, s), s), Value::U128(u128::MAX, s));
    assert_eq!(Value::I32(7, s).sub_wrapped(Value::I32(9, s), s), Value::I32(-2, s));
}

#[test]
fn mul_checks_the_range() {
    let s = at(0, 1);
    assert_eq!(Value::U8(15, s).mul(Value::U8(17, s), s), Ok(Value::U8(255, s)));
    assert_eq!(Value::U8(16, s).mul(Value::U8(16, s), s), Err(overflow("16", "*", "16", "u8", s)));
    assert_eq!(Value::I8(-64, s).mul(Value::I8(2, s), s), Ok(Value::I8(-128, s)));
    assert_eq!(Value::I8(64, s).mul(Value::I8(2, s), s), Err(overflow("64", "*", "2", "i8", s)));
    assert_eq!(Value::I128(-3, s).mul(Value::I128(4, s), s), Ok(Value::I128(-12, s)));
    assert!(Value::U64(1 << 32, s).mul(Value::U64(1 << 32, s), s).is_err());
}

#[test]
fn mul_wrapped_wraps() {
    let s = at(0, 1);
    assert_eq!(Value::U8(16, s).mul_wrapped(Value::U8(16, s), s), Value::U8(0, s));
    assert_eq!(Value::U8(200, s).mul_wrapped(Value::U8(3, s), s), Value::U8(88, s));
    assert_eq!(Value::I8(64, s).mul_wrapped(Value::I8(2, s), s), Value::I8(-128, s));
    assert_eq!(Value::I8(-127, s).mul_wrapped(Value::I8(3, s), s), Value::I8(-125, s));
    assert_eq!(Value::I16(300, s).mul_wrapped(Value::I16(300, s), s), Value::I16(300i16.wrapping_mul(300), s));
    assert_eq!(
        Value::U64(u64::MAX, s).mul_wrapped(Value::U64(u64::MAX, s), s),
        Value::U64(1, s)
    );
    assert_eq!(
        Value::I128(i128::MAX, s).mul_wrapped(Value::I128(2, s), s),
        Value::I128(-2, s)
    );
    assert_eq!(
        Value::U128(u128::MAX, s).mul_wrapped(Value::U128(u128::MAX, s), s),
        Value::U128(1, s)
    );
}

#[test]
fn div_rounds_towards_zero() {
    let s = at(2, 5);
    assert_eq!(Value::I8(7, s).div(Value::I8(2, s), s), Ok(Value::I8(3, s)));
    assert_eq!(Value::I8(-7, s).div(Value::I8(2, s), s), Ok(Value::I8(-3, s)));
    assert_eq!(Value::I8(7, s).div(Value::I8(-2, s), s), Ok(Value::I8(-3, s)));
    assert_eq!(Value::I8(-7, s).div(Value::I8(-2, s), s), Ok(Value::I8(3, s)));
    assert_eq!(Value::U32(7, s).div(Value::U32(2, s), s), Ok(Value::U32(3, s)));
}

#[test]
fn div_by_zero_is_an_overflow() {
    let s = at(2, 5);
    assert_eq!(Value::U8(7, s).div(Value::U8(0, s), s), Err(overflow("7", "/", "0", "u8", s)));
    assert_eq!(Value::I64(-7, s).div(Value::I64(0, s), s), Err(overflow("-7", "/", "0", "i64", s)));
}

#[test]
fn div_of_the_least_by_minus_one() {
    let s = at(2, 5);
    assert_eq!(
        Value::I8(-128, s).div(Value::I8(-1, s), s),
        Err(overflow("-128", "/", "-1", "i8", s))
    );
    assert_eq!(Value::I8(-128, s).div_wrapped(Value::I8(-1, s), s), Value::I8(-128, s));
    assert_eq!(
        Value::I128(i128::MIN, s).div_wrapped(Value::I128(-1, s), s),
        Value::I128(i128::MIN, s)
    );
}

#[test]
fn div_wrapped_divides() {
    let s = at(2, 5);
    assert_eq!(Value::I16(-7, s).div_wrapped(Value::I16(2, s), s), Value::I16(-3, s));
    assert_eq!(Value::U64(100, s).div_wrapped(Value::U64(7, s), s), Value::U64(14, s));
}

#[test]
fn pow_checks_the_range() {
    let s = at(0, 4);
    assert_eq!(Value::U8(2, s).pow(Value::U8(7, s), s), Ok(Value::U8(128, s)));
    assert_eq!(Value::U8(2, s).pow(Value::U8(8, s), s), Err(overflow("2", "**", "8", "u8", s)));
    assert_eq!(Value::I8(2, s).pow(Value::U8(7, s), s), Err(overflow("2", "**", "7", "u8", s)));
    assert_eq!(Value::I8(-2, s).pow(Value::U16(7, s), s), Ok(Value::I8(-128, s)));
    assert_eq!(Value::I8(-2, s).pow(Value::U16(8, s), s), Err(overflow("-2", "**", "8", "u16", s)));
    assert_eq!(Value::I32(3, s).pow(Value::U32(4, s), s), Ok(Value::I32(81, s)));
    assert_eq!(Value::U64(10, s).pow(Value::U8(19, s), s), Ok(Value::U64(10_000_000_000_000_000_000, s)));
    assert!(Value::U64(10, s).pow(Value::U8(20, s), s).is_err());
    assert_eq!(Value::U128(2, s).pow(Value::U8(127, s), s), Ok(Value::U128(1 << 127, s)));
    assert!(Value::U128(2, s).pow(Value::U8(128, s), s).is_err());
    assert_eq!(Value::I128(-2, s).pow(Value::U8(127, s), s), Ok(Value::I128(i128::MIN, s)));
    assert!(Value::I128(2, s).pow(Value::U8(127, s), s).is_err());
}

#[test]
fn pow_of_small_bases() {
    let s = at(0, 4);
    assert_eq!(Value::I8(0, s).pow(Value::U32(0, s), s), Ok(Value::I8(1, s)));
    assert_eq!(Value::I8(0, s).pow(Value::U32(u32::MAX, s), s), Ok(Value::I8(0, s)));
    assert_eq!(Value::I8(1, s).pow(Value::U32(u32::MAX, s), s), Ok(Value::I8(1, s)));
    assert_eq!(Value::I8(-1, s).pow(Value::U32(u32::MAX, s), s), Ok(Value::I8(-1, s)));
    assert_eq!(Value::I8(-1, s).pow(Value::U32(u32::MAX - 1, s), s), Ok(Value::I8(1, s)));
    assert_eq!(Value::U16(1, s).pow(Value::U32(u32::MAX, s), s), Ok(Value::U16(1, s)));
    assert_eq!(Value::U16(0, s).pow(Value::U32(5, s), s), Ok(Value::U16(0, s)));
    assert_eq!(Value::U16(77, s).pow(Value::U8(0, s), s), Ok(Value::U16(1, s)));
    assert_eq!(Value::U16(77, s).pow(Value::U8(1, s), s), Ok(Value::U16(77, s)));
}

#[test]
fn pow_wrapped_wraps() {
    let s = at(0, 4);
    assert_eq!(Value::U8(2, s).pow_wrapped(Value::U8(8, s), s), Value::U8(0, s));
    assert_eq!(Value::U8(3, s).pow_wrapped(Value::U8(5, s), s), Value::U8(243, s));
    assert_eq!(Value::U8(3, s).pow_wrapped(Value::U8(6, s), s), Value::U8(3u8.wrapping_pow(6), s));
    assert_eq!(Value::U8(3, s).pow_wrapped(Value::U8(6, s), s), Value::U8(217, s));
    assert_eq!(Value::I8(2, s).pow_wrapped(Value::U8(7, s), s), Value::I8(-128, s));
    assert_eq!(Value::I8(-3, s).pow_wrapped(Value::U16(5, s), s), Value::I8(13, s));
    assert_eq!(Value::I8(-3, s).pow_wrapped(Value::U16(3, s), s), Value::I8(-27, s));
    assert_eq!(
        Value::I32(7, s).pow_wrapped(Value::U32(1_000_003, s), s),
        Value::I32(7i32.wrapping_pow(1_000_003), s)
    );
    assert_eq!(
        Value::U64(3, s).pow_wrapped(Value::U32(u32::MAX, s), s),
        Value::U64(3u64.wrapping_pow(u32::MAX), s)
    );
    assert_eq!(
        Value::I64(-5, s).pow_wrapped(Value::U32(12345, s), s),
        Value::I64((-5i64).wrapping_pow(12345), s)
    );
    assert_eq!(
        Value::U128(3, s).pow_wrapped(Value::U32(1000, s), s),
        Value::U128(3u128.wrapping_pow(1000), s)
    );
    assert_eq!(
        Value::I128(-7, s).pow_wrapped(Value::U32(999, s), s),
        Value::I128((-7i128).wrapping_pow(999), s)
    );
    assert_eq!(Value::I16(5, s).pow_wrapped(Value::U8(0, s), s), Value::I16(1, s));
}

#[test]
fn shl_of_i8_by_seven_gives_the_least() {
    let s = at(5, 6);
    assert_eq!(Value::I8(1, s).shl(Value::U8(7, s), s), Ok(Value::I8(-128, s)));
}

#[test]
fn shl_of_i8_by_eight_fails() {
    let s = at(5, 6);
    assert_eq!(Value::I8(1, s).shl(Value::U8(8, s), s), Err(overflow("1", "<<", "8", "u8", s)));
}

#[test]
fn shl_loses_the_bits_that_leave() {
    let s = at(5, 6);
    assert_eq!(Value::U8(0b1100_0001, s).shl(Value::U16(1, s), s), Ok(Value::U8(0b1000_0010, s)));
    assert_eq!(Value::I16(-1, s).shl(Value::U32(15, s), s), Ok(Value::I16(i16::MIN, s)));
    assert_eq!(Value::U128(1, s).shl(Value::U8(127, s), s), Ok(Value::U128(1 << 127, s)));
    assert_eq!(
        Value::U128(1, s).shl(Value::U8(128, s), s),
        Err(overflow("1", "<<", "128", "u8", s))
    );
    assert_eq!(
        Value::U32(1, s).shl(Value::U32(32, s), s),
        Err(overflow("1", "<<", "32", "u32", s))
    );
    assert_eq!(Value::U64(3, s).shl(Value::U8(63, s), s), Ok(Value::U64(1 << 63, s)));
}

#[test]
fn shl_wrapped_takes_the_amount_modulo_the_width() {
    let s = at(5, 6);
    assert_eq!(Value::I8(1, s).shl_wrapped(Value::U8(8, s), s), Value::I8(1, s));
    assert_eq!(Value::I8(1, s).shl_wrapped(Value::U8(9, s), s), Value::I8(2, s));
    assert_eq!(Value::U32(1, s).shl_wrapped(Value::U32(33, s), s), Value::U32(2, s));
    assert_eq!(Value::U128(1, s).shl_wrapped(Value::U16(128, s), s), Value::U128(1, s));
    assert_eq!(Value::I64(-1, s).shl_wrapped(Value::U8(63, s), s), Value::I64(i64::MIN, s));
}

#[test]
fn shr_keeps_the_sign() {
    let s = at(5, 6);
    assert_eq!(Value::I8(-128, s).shr(Value::U8(7, s), s), Ok(Value::I8(-1, s)));
    assert_eq!(Value::I8(-128, s).shr(Value::U8(8, s), s), Err(overflow("-128", ">>", "8", "u8", s)));
    assert_eq!(Value::U8(128, s).shr(Value::U8(7, s), s), Ok(Value::U8(1, s)));
    assert_eq!(Value::I32(-7, s).shr(Value::U16(1, s), s), Ok(Value::I32(-4, s)));
    assert_eq!(Value::U64(u64::MAX, s).shr(Value::U32(63, s), s), Ok(Value::U64(1, s)));
    assert!(Value::U64(u64::MAX, s).shr(Value::U32(64, s), s).is_err());
}

#[test]
fn shr_wrapped_takes_the_amount_modulo_the_width() {
    let s = at(5, 6);
    assert_eq!(Value::I8(-128, s).shr_wrapped(Value::U8(8, s), s), Value::I8(-128, s));
    assert_eq!(Value::I8(-128, s).shr_wrapped(Value::U8(9, s), s), Value::I8(-64, s));
    assert_eq!(Value::U16(0x8000, s).shr_wrapped(Value::U32(17, s), s), Value::U16(0x4000, s));
    assert_eq!(Value::U128(u128::MAX, s).shr_wrapped(Value::U8(127, s), s), Value::U128(1, s));
}

#[test]
fn comparisons_give_booleans() {
    let s = at(7, 9);
    assert_eq!(Value::I8(3, s).eq(Value::I8(3, s), s), Value::Boolean(true, s));
    assert_eq!(Value::I8(3, s).eq(Value::I8(4, s), s), Value::Boolean(false, s));
    assert_eq!(Value::U64(3, s).ge(Value::U64(3, s), s), Value::Boolean(true, s));
    assert_eq!(Value::U64(2, s).ge(Value::U64(3, s), s), Value::Boolean(false, s));
    assert_eq!(Value::I128(-1, s).gt(Value::I128(-2, s), s), Value::Boolean(true, s));
    assert_eq!(Value::I128(-2, s).gt(Value::I128(-2, s), s), Value::Boolean(false, s));
    assert_eq!(Value::U16(9, s).le(Value::U16(9, s), s), Value::Boolean(true, s));
    assert_eq!(Value::U16(10, s).le(Value::U16(9, s), s), Value::Boolean(false, s));
    assert_eq!(Value::I32(-5, s).lt(Value::I32(5, s), s), Value::Boolean(true, s));
    assert_eq!(Value::I32(5, s).lt(Value::I32(5, s), s), Value::Boolean(false, s));
    assert_eq!(Value::U128(u128::MAX, s).gt(Value::U128(0, s), s), Value::Boolean(true, s));
}

#[test]
fn bitwise_operations_on_booleans() {
    let s = at(1, 1);
    assert_eq!(Value::Boolean(true, s).bitand(Value::Boolean(false, s), s), Value::Boolean(false, s));
    assert_eq!(Value::Boolean(true, s).bitand(Value::Boolean(true, s), s), Value::Boolean(true, s));
    assert_eq!(Value::Boolean(false, s).bitor(Value::Boolean(true, s), s), Value::Boolean(true, s));
    assert_eq!(Value::Boolean(false, s).bitor(Value::Boolean(false, s), s), Value::Boolean(false, s));
    assert_eq!(Value::Boolean(true, s).xor(Value::Boolean(true, s), s), Value::Boolean(false, s));
    assert_eq!(Value::Boolean(true, s).xor(Value::Boolean(false, s), s), Value::Boolean(true, s));
}

#[test]
fn bitwise_operations_on_integers() {
    let s = at(1, 1);
    assert_eq!(Value::U8(0b1100, s).bitand(Value::U8(0b1010, s), s), Value::U8(0b1000, s));
    assert_eq!(Value::U8(0b1100, s).bitor(Value::U8(0b1010, s), s), Value::U8(0b1110, s));
    assert_eq!(Value::U8(0b1100, s).xor(Value::U8(0b1010, s), s), Value::U8(0b0110, s));
    assert_eq!(Value::I8(-1, s).bitand(Value::I8(5, s), s), Value::I8(5, s));
    assert_eq!(Value::I16(-2, s).bitor(Value::I16(1, s), s), Value::I16(-1, s));
    assert_eq!(Value::I64(-1, s).xor(Value::I64(0, s), s), Value::I64(-1, s));
    assert_eq!(Value::U128(u128::MAX, s).xor(Value::U128(1, s), s), Value::U128(u128::MAX - 1, s));
}

#[test]
fn not_keeps_the_place() {
    assert_eq!(Value::Boolean(true, at(3, 7)).not(), Value::Boolean(false, at(3, 7)));
    assert_eq!(Value::I8(0, at(3, 7)).not(), Value::I8(-1, at(3, 7)));
    assert_eq!(Value::I32(5, at(3, 7)).not(), Value::I32(-6, at(3, 7)));
    assert_eq!(Value::U8(5, at(1, 2)).not(), Value::U8(250, at(1, 2)));
    assert_eq!(Value::U64(0, at(1, 2)).not(), Value::U64(u64::MAX, at(1, 2)));
    assert_eq!(Value::U128(u128::MAX, at(1, 2)).not(), Value::U128(0, at(1, 2)));
    assert_eq!(Value::I128(i128::MIN, at(1, 2)).not(), Value::I128(i128::MAX, at(1, 2)));
}

#[test]
fn the_diagnostic_names_the_type_of_the_right_operand() {
    let s = at(0, 9);
    let result = Value::I64(i64::MAX, s).pow(Value::U32(2, s), s);
    assert_eq!(result, Err(overflow("9223372036854775807", "**", "2", "u32", s)));
    let result = Value::I128(i128::MIN, s).sub(Value::I128(1, s), s);
    assert_eq!(
        result,
        Err(overflow("-170141183460469231731687303715884105728", "-", "1", "i128", s))
    );
}
