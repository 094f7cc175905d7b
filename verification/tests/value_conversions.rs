use leo_passes::error::ValueError;
use leo_passes::group::{GroupCoordinate, GroupLiteral, GroupTuple};
use leo_passes::literal::LiteralExpression;
use leo_passes::span::Span;
use leo_passes::types::{IntegerType, Type};
use leo_passes::value::Value;

fn all_kinds() -> Vec<IntegerType> {
    vec![
        IntegerType::U8,
        IntegerType::U16,
        IntegerType::U32,
        IntegerType::U64,
        IntegerType::U128,
        IntegerType::I8,
        IntegerType::I16,
        IntegerType::I32,
        IntegerType::I64,
        IntegerType::I128,
    ]
}

fn affine(span: Span) -> Value {
    Value::Group(Box::new(GroupLiteral::Tuple(GroupTuple {
        x: GroupCoordinate::Number("12".to_string(), Span::new(1, 3)),
        y: GroupCoordinate::SignHigh,
        span,
    })))
}

#[test]
fn only_booleans_and_integers_are_folded() {
    let s = Span::dummy();
    assert!(Value::Boolean(true, s).is_supported_const_fold_type());
    assert!(Value::I8(0, s).is_supported_const_fold_type());
    assert!(Value::I16(0, s).is_supported_const_fold_type());
    assert!(Value::I32(0, s).is_supported_const_fold_type());
    assert!(Value::I64(0, s).is_supported_const_fold_type());
    assert!(Value::I128(0, s).is_supported_const_fold_type());
    assert!(Value::U8(0, s).is_supported_const_fold_type());
    assert!(Value::U16(0, s).is_supported_const_fold_type());
    assert!(Value::U32(0, s).is_supported_const_fold_type());
    assert!(Value::U64(0, s).is_supported_const_fold_type());
    assert!(Value::U128(0, s).is_supported_const_fold_type());
    assert!(!Value::Address("aleo1".to_string(), s).is_supported_const_fold_type());
    assert!(!Value::Field("1".to_string(), s).is_supported_const_fold_type());
    assert!(!Value::Scalar("1".to_string(), s).is_supported_const_fold_type());
    assert!(!Value::String("a".to_string(), s).is_supported_const_fold_type());
    assert!(!affine(s).is_supported_const_fold_type());
}

#[test]
fn from_usize_makes_the_kind_that_is_asked_for() {
    let s = Span::new(4, 6);
    assert_eq!(Value::from_usize(Type::Integer(IntegerType::U8), 5, s), Value::U8(5, s));
    assert_eq!(Value::from_usize(Type::Integer(IntegerType::U16), 5, s), Value::U16(5, s));
    assert_eq!(Value::from_usize(Type::Integer(IntegerType::U32), 5, s), Value::U32(5, s));
    assert_eq!(Value::from_usize(Type::Integer(IntegerType::U64), 5, s), Value::U64(5, s));
    assert_eq!(Value::from_usize(Type::Integer(IntegerType::U128), 5, s), Value::U128(5, s));
    assert_eq!(Value::from_usize(Type::Integer(IntegerType::I8), 5, s), Value::I8(5, s));
    assert_eq!(Value::from_usize(Type::Integer(IntegerType::I16), 5, s), Value::I16(5, s));
    assert_eq!(Value::from_usize(Type::Integer(IntegerType::I32), 5, s), Value::I32(5, s));
    assert_eq!(Value::from_usize(Type::Integer(IntegerType::I64), 5, s), Value::I64(5, s));
    assert_eq!(Value::from_usize(Type::Integer(IntegerType::I128), 5, s), Value::I128(5, s));
}

#[test]
fn from_usize_keeps_the_bits_of_the_kind() {
    let s = Span::dummy();
    assert_eq!(Value::from_usize(Type::Integer(IntegerType::U8), 260, s), Value::U8(4, s));
    assert_eq!(Value::from_usize(Type::Integer(IntegerType::I8), 128, s), Value::I8(-128, s));
    assert_eq!(Value::from_usize(Type::Integer(IntegerType::I8), 255, s), Value::I8(-1, s));
    assert_eq!(Value::from_usize(Type::Integer(IntegerType::I8), 256, s), Value::I8(0, s));
    assert_eq!(Value::from_usize(Type::Integer(IntegerType::U16), 65537, s), Value::U16(1, s));
    assert_eq!(Value::from_usize(Type::Integer(IntegerType::I16), 40000, s), Value::I16(-25536, s));
    assert_eq!(
        Value::from_usize(Type::Integer(IntegerType::I32), 3_000_000_000, s),
        Value::I32(-1_294_967_296, s)
    );
    assert_eq!(
        Value::from_usize(Type::Integer(IntegerType::U32), 4_294_967_301, s),
        Value::U32(5, s)
    );
    assert_eq!(
        Value::from_usize(Type::Integer(IntegerType::I64), usize::MAX, s),
        Value::I64(usize::MAX as i64, s)
    );
    assert_eq!(
        Value::from_usize(Type::Integer(IntegerType::U128), usize::MAX, s),
        Value::U128(usize::MAX as u128, s)
    );
}

#[test]
fn a_size_that_fits_comes_back() {
    let s = Span::new(1, 2);
    let sizes: Vec<usize> = vec![0, 1, 5, 127, 128, 255, 256, 32767, 65535, 65536, 1 << 31, usize::MAX];
    for kind in all_kinds() {
        for n in sizes.iter() {
            let fits = match kind {
                IntegerType::U8 => *n <= u8::MAX as usize,
                IntegerType::U16 => *n <= u16::MAX as usize,
                IntegerType::U32 => *n <= u32::MAX as usize,
                IntegerType::I8 => *n <= i8::MAX as usize,
                IntegerType::I16 => *n <= i16::MAX as usize,
                IntegerType::I32 => *n <= i32::MAX as usize,
                IntegerType::I64 => *n <= i64::MAX as usize,
                _ => true,
            };
            if fits {
                let value = Value::from_usize(Type::Integer(kind), *n, s);
                assert_eq!(usize::try_from(value), Ok(*n));
            }
        }
    }
}

#[test]
fn a_negative_integer_is_no_loop_bound() {
    let s = Span::new(8, 10);
    assert_eq!(
        usize::try_from(Value::I32(-1, s)),
        Err(ValueError::LoopHasNegativeValue { type_: Type::Integer(IntegerType::I32), span: s })
    );
    assert_eq!(
        usize::try_from(Value::I8(-128, s)),
        Err(ValueError::LoopHasNegativeValue { type_: Type::Integer(IntegerType::I8), span: s })
    );
    assert_eq!(
        usize::try_from(Value::I128(i128::MIN, s)),
        Err(ValueError::LoopHasNegativeValue { type_: Type::Integer(IntegerType::I128), span: s })
    );
}

#[test]
fn an_integer_beyond_the_sizes_is_no_loop_bound() {
    let s = Span::new(8, 10);
    assert_eq!(
        usize::try_from(Value::I128(i128::MAX, s)),
        Err(ValueError::LoopHasNegativeValue { type_: Type::Integer(IntegerType::I128), span: s })
    );
}

#[test]
fn an_address_is_no_loop_bound() {
    let s = Span::new(8, 10);
    assert_eq!(
        usize::try_from(Value::Address("aleo1qnr4".to_string(), s)),
        Err(ValueError::CannotUseTypeAsLoopBound { value: "aleo1qnr4".to_string(), span: s })
    );
}

#[test]
fn no_other_kind_is_a_loop_bound() {
    let s = Span::new(8, 10);
    assert_eq!(
        usize::try_from(Value::Boolean(true, s)),
        Err(ValueError::CannotUseTypeAsLoopBound { value: "true".to_string(), span: s })
    );
    assert_eq!(
        usize::try_from(Value::Field("17".to_string(), s)),
        Err(ValueError::CannotUseTypeAsLoopBound { value: "17".to_string(), span: s })
    );
    assert_eq!(
        usize::try_from(Value::Scalar("3".to_string(), s)),
        Err(ValueError::CannotUseTypeAsLoopBound { value: "3".to_string(), span: s })
    );
    assert_eq!(
        usize::try_from(Value::String("abc".to_string(), s)),
        Err(ValueError::CannotUseTypeAsLoopBound { value: "abc".to_string(), span: s })
    );
    assert_eq!(
        usize::try_from(affine(Span::new(0, 9))),
        Err(ValueError::CannotUseTypeAsLoopBound { value: "12".to_string(), span: Span::new(0, 9) })
    );
    assert_eq!(
        usize::try_from(Value::Group(Box::new(GroupLiteral::Single("7".to_string(), Span::new(2, 3))))),
        Err(ValueError::CannotUseTypeAsLoopBound { value: "7".to_string(), span: Span::new(2, 3) })
    );
}

#[test]
fn a_value_is_tried_as_a_size() {
    let s = Span::new(4, 5);
    let negative = Value::I32(-1, s);
    let size: Result<usize, ValueError> = (&negative).try_into();
    assert_eq!(
        size,
        Err(ValueError::LoopHasNegativeValue { type_: Type::Integer(IntegerType::I32), span: s })
    );
    let address = Value::Address("aleo1".to_string(), s);
    let size: Result<usize, ValueError> = (&address).try_into();
    assert_eq!(
        size,
        Err(ValueError::CannotUseTypeAsLoopBound { value: "aleo1".to_string(), span: s })
    );
    let five = Value::U32(5, s);
    let size: Result<usize, ValueError> = (&five).try_into();
    assert_eq!(size, Ok(5));
    let size: Result<usize, ValueError> = five.try_into();
    assert_eq!(size, Ok(5));
    assert_eq!(Type::from(&negative), Type::Integer(IntegerType::I32));
}

#[test]
fn an_unsigned_integer_is_a_loop_bound() {
    let s = Span::dummy();
    assert_eq!(usize::try_from(Value::U32(5, s)), Ok(5));
    assert_eq!(usize::try_from(Value::U8(255, s)), Ok(255));
    assert_eq!(usize::try_from(Value::U16(65535, s)), Ok(65535));
    assert_eq!(usize::try_from(Value::U64(77, s)), Ok(77));
    assert_eq!(usize::try_from(Value::U128(77, s)), Ok(77));
    assert_eq!(usize::try_from(Value::I64(77, s)), Ok(77));
    assert_eq!(usize::try_from(Value::I8(0, s)), Ok(0));
}

#[test]
fn an_unsigned_integer_is_cut_to_the_size_of_the_machine() {
    let s = Span::dummy();
    let beyond = usize::MAX as u128 + 6;
    assert_eq!(usize::try_from(Value::U128(beyond, s)), Ok(5));
    assert_eq!(usize::try_from(Value::U128(u128::MAX, s)), Ok(usize::MAX));
}

#[test]
fn the_type_of_each_kind() {
    let s = Span::dummy();
    assert_eq!(Type::from(Value::Address("a".to_string(), s)), Type::Address);
    assert_eq!(Type::from(Value::Boolean(false, s)), Type::Boolean);
    assert_eq!(Type::from(Value::Field("1".to_string(), s)), Type::Field);
    assert_eq!(Type::from(affine(s)), Type::Group);
    assert_eq!(Type::from(Value::I8(0, s)), Type::Integer(IntegerType::I8));
    assert_eq!(Type::from(Value::I16(0, s)), Type::Integer(IntegerType::I16));
    assert_eq!(Type::from(Value::I32(0, s)), Type::Integer(IntegerType::I32));
    assert_eq!(Type::from(Value::I64(0, s)), Type::Integer(IntegerType::I64));
    assert_eq!(Type::from(Value::I128(0, s)), Type::Integer(IntegerType::I128));
    assert_eq!(Type::from(Value::U8(0, s)), Type::Integer(IntegerType::U8));
    assert_eq!(Type::from(Value::U16(0, s)), Type::Integer(IntegerType::U16));
    assert_eq!(Type::from(Value::U32(0, s)), Type::Integer(IntegerType::U32));
    assert_eq!(Type::from(Value::U64(0, s)), Type::Integer(IntegerType::U64));
    assert_eq!(Type::from(Value::U128(0, s)), Type::Integer(IntegerType::U128));
    assert_eq!(Type::from(Value::Scalar("1".to_string(), s)), Type::Scalar);
    assert_eq!(Type::from(Value::String("s".to_string(), s)), Type::String);
}

#[test]
fn a_value_is_shown_by_its_payload() {
    let s = Span::dummy();
    assert_eq!(Value::Address("aleo1xyz".to_string(), s).to_string(), "aleo1xyz");
    assert_eq!(Value::Boolean(true, s).to_string(), "true");
    assert_eq!(Value::Boolean(false, s).to_string(), "false");
    assert_eq!(Value::Field("123".to_string(), s).to_string(), "123");
    assert_eq!(affine(s).to_string(), "12");
    assert_eq!(Value::Scalar("9".to_string(), s).to_string(), "9");
    assert_eq!(Value::String("hello".to_string(), s).to_string(), "hello");
}

#[test]
fn an_integer_is_shown_in_decimal() {
    let s = Span::dummy();
    assert_eq!(Value::I8(-128, s).to_string(), "-128");
    assert_eq!(Value::I8(0, s).to_string(), "0");
    assert_eq!(Value::I16(-7, s).to_string(), "-7");
    assert_eq!(Value::I32(10, s).to_string(), "10");
    assert_eq!(Value::I32(i32::MIN, s).to_string(), "-2147483648");
    assert_eq!(Value::I64(i64::MAX, s).to_string(), "9223372036854775807");
    assert_eq!(Value::I128(i128::MIN, s).to_string(), i128::MIN.to_string());
    assert_eq!(Value::I128(i128::MAX, s).to_string(), i128::MAX.to_string());
    assert_eq!(Value::U8(9, s).to_string(), "9");
    assert_eq!(Value::U8(100, s).to_string(), "100");
    assert_eq!(Value::U16(65535, s).to_string(), "65535");
    assert_eq!(Value::U32(1001, s).to_string(), "1001");
    assert_eq!(Value::U64(u64::MAX, s).to_string(), "18446744073709551615");
    assert_eq!(
        Value::U128(u128::MAX, s).to_string(),
        "340282366920938463463374607431768211455"
    );
}

#[test]
fn a_group_coordinate_is_shown_as_it_is_written() {
    assert_eq!(GroupCoordinate::Number("5".to_string(), Span::dummy()).to_string(), "5");
    assert_eq!(GroupCoordinate::SignHigh.to_string(), "+");
    assert_eq!(GroupCoordinate::SignLow.to_string(), "-");
    assert_eq!(GroupCoordinate::Inferred.to_string(), "_");
}

#[test]
fn a_group_literal_knows_its_place() {
    let single = GroupLiteral::Single("4".to_string(), Span::new(3, 4));
    assert_eq!(single.span(), Span::new(3, 4));
    assert_eq!(single.to_string(), "4");
    let tuple = GroupLiteral::Tuple(GroupTuple {
        x: GroupCoordinate::Inferred,
        y: GroupCoordinate::Number("1".to_string(), Span::new(5, 6)),
        span: Span::new(0, 8),
    });
    assert_eq!(tuple.span(), Span::new(0, 8));
    assert_eq!(tuple.to_string(), "_");
}

#[test]
fn a_value_becomes_a_literal() {
    let s = Span::new(2, 4);
    assert_eq!(
        LiteralExpression::from(Value::Address("aleo1".to_string(), s)),
        LiteralExpression::Address("aleo1".to_string(), s)
    );
    assert_eq!(LiteralExpression::from(Value::Boolean(true, s)), LiteralExpression::Boolean(true, s));
    assert_eq!(
        LiteralExpression::from(Value::Field("5".to_string(), s)),
        LiteralExpression::Field("5".to_string(), s)
    );
    assert_eq!(
        LiteralExpression::from(Value::Scalar("6".to_string(), s)),
        LiteralExpression::Scalar("6".to_string(), s)
    );
    assert_eq!(
        LiteralExpression::from(Value::String("txt".to_string(), s)),
        LiteralExpression::String("txt".to_string(), s)
    );
    let group = GroupLiteral::Single("3".to_string(), s);
    assert_eq!(
        LiteralExpression::from(Value::Group(Box::new(group.clone()))),
        LiteralExpression::Group(Box::new(group))
    );
}

#[test]
fn an_integer_becomes_a_literal_in_decimal() {
    let s = Span::new(2, 4);
    assert_eq!(
        LiteralExpression::from(Value::I8(-5, s)),
        LiteralExpression::Integer(IntegerType::I8, "-5".to_string(), s)
    );
    assert_eq!(
        LiteralExpression::from(Value::I16(300, s)),
        LiteralExpression::Integer(IntegerType::I16, "300".to_string(), s)
    );
    assert_eq!(
        LiteralExpression::from(Value::I32(-70000, s)),
        LiteralExpression::Integer(IntegerType::I32, "-70000".to_string(), s)
    );
    assert_eq!(
        LiteralExpression::from(Value::I64(1, s)),
        LiteralExpression::Integer(IntegerType::I64, "1".to_string(), s)
    );
    assert_eq!(
        LiteralExpression::from(Value::I128(-1, s)),
        LiteralExpression::Integer(IntegerType::I128, "-1".to_string(), s)
    );
    assert_eq!(
        LiteralExpression::from(Value::U8(255, s)),
        LiteralExpression::Integer(IntegerType::U8, "255".to_string(), s)
    );
    assert_eq!(
        LiteralExpression::from(Value::U16(0, s)),
        LiteralExpression::Integer(IntegerType::U16, "0".to_string(), s)
    );
    assert_eq!(
        LiteralExpression::from(Value::U32(42, s)),
        LiteralExpression::Integer(IntegerType::U32, "42".to_string(), s)
    );
    assert_eq!(
        LiteralExpression::from(Value::U64(1000, s)),
        LiteralExpression::Integer(IntegerType::U64, "1000".to_string(), s)
    );
    assert_eq!(
        LiteralExpression::from(Value::U128(u128::MAX, s)),
        LiteralExpression::Integer(IntegerType::U128, u128::MAX.to_string(), s)
    );
}

#[test]
fn the_kinds_of_integers() {
    assert!(IntegerType::I8.is_signed());
    assert!(IntegerType::I128.is_signed());
    assert!(!IntegerType::U8.is_signed());
    assert!(!IntegerType::U128.is_signed());
    assert_eq!(IntegerType::U8.bits(), 8);
    assert_eq!(IntegerType::I16.bits(), 16);
    assert_eq!(IntegerType::U32.bits(), 32);
    assert_eq!(IntegerType::I64.bits(), 64);
    assert_eq!(IntegerType::U128.bits(), 128);
    assert_eq!(IntegerType::U8.name(), "u8");
    assert_eq!(IntegerType::U16.name(), "u16");
    assert_eq!(IntegerType::U32.name(), "u32");
    assert_eq!(IntegerType::U64.name(), "u64");
    assert_eq!(IntegerType::U128.name(), "u128");
    assert_eq!(IntegerType::I8.name(), "i8");
    assert_eq!(IntegerType::I16.name(), "i16");
    assert_eq!(IntegerType::I32.name(), "i32");
    assert_eq!(IntegerType::I64.name(), "i64");
    assert_eq!(IntegerType::I128.name(), "i128");
    assert_eq!(IntegerType::I8.mask(), 255);
    assert_eq!(IntegerType::U128.mask(), u128::MAX);
    assert!(IntegerType::I8.holds_signed(-128));
    assert!(!IntegerType::I8.holds_signed(128));
    assert!(IntegerType::U16.holds_unsigned(65535));
    assert!(!IntegerType::U16.holds_unsigned(65536));
}

#[test]
fn the_kind_of_a_value() {
    let s = Span::dummy();
    assert_eq!(Value::I8(0, s).kind(), Some(IntegerType::I8));
    assert_eq!(Value::U128(0, s).kind(), Some(IntegerType::U128));
    assert_eq!(Value::Boolean(true, s).kind(), None);
    assert_eq!(Value::Address("a".to_string(), s).kind(), None);
}

#[test]
fn spans() {
    assert_eq!(Span::new(1, 2), Span { lo: 1, hi: 2 });
    assert_eq!(Span::dummy(), Span { lo: 0, hi: 0 });
    assert!(Span::dummy().is_dummy());
    assert!(!Span::new(0, 1).is_dummy());
}
