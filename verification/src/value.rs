//! Constant values and what can be read from one.

use crate::decimal::{decimal, signed_text, unsigned_text};
use crate::error::{ValueError, ValueErrorView};
use crate::group::GroupLiteral;
use crate::literal::{LiteralExpression, LiteralView};
use crate::span::Span;
use crate::types::{IntegerType, Type};
use vstd::arithmetic::div_mod::lemma_small_mod;
use vstd::prelude::*;
use vstd::string::*;

verus! {

/// A constant: a literal payload of one of sixteen kinds, with its place in the source.
#[derive(Clone, Debug, PartialEq, Eq)]
pub enum Value {
    Address(String, Span),
    Boolean(bool, Span),
    Field(String, Span),
    Group(Box<GroupLiteral>),
    I8(i8, Span),
    I16(i16, Span),
    I32(i32, Span),
    I64(i64, Span),
    I128(i128, Span),
    U8(u8, Span),
    U16(u16, Span),
    U32(u32, Span),
    U64(u64, Span),
    U128(u128, Span),
    Scalar(String, Span),
    String(String, Span),
}

impl Value {
    /// The integer kind of the value, if it is an integer.
    pub open spec fn integer_type(self) -> Option<IntegerType> {
        match self {
            Value::I8(..) => Some(IntegerType::I8),
            Value::I16(..) => Some(IntegerType::I16),
            Value::I32(..) => Some(IntegerType::I32),
            Value::I64(..) => Some(IntegerType::I64),
            Value::I128(..) => Some(IntegerType::I128),
            Value::U8(..) => Some(IntegerType::U8),
            Value::U16(..) => Some(IntegerType::U16),
            Value::U32(..) => Some(IntegerType::U32),
            Value::U64(..) => Some(IntegerType::U64),
            Value::U128(..) => Some(IntegerType::U128),
            _ => None,
        }
    }

    /// The number that an integer value holds.
    pub open spec fn int_value(self) -> int {
        match self {
            Value::I8(v, _) => v as int,
            Value::I16(v, _) => v as int,
            Value::I32(v, _) => v as int,
            Value::I64(v, _) => v as int,
            Value::I128(v, _) => v as int,
            Value::U8(v, _) => v as int,
            Value::U16(v, _) => v as int,
            Value::U32(v, _) => v as int,
            Value::U64(v, _) => v as int,
            Value::U128(v, _) => v as int,
            _ => 0,
        }
    }

    /// The integer value of kind `kind` that holds `x`, for an `x` of that kind.
    pub open spec fn integer(kind: IntegerType, x: int, span: Span) -> Value {
        match kind {
            IntegerType::I8 => Value::I8(x as i8, span),
            IntegerType::I16 => Value::I16(x as i16, span),
            IntegerType::I32 => Value::I32(x as i32, span),
            IntegerType::I64 => Value::I64(x as i64, span),
            IntegerType::I128 => Value::I128(x as i128, span),
            IntegerType::U8 => Value::U8(x as u8, span),
            IntegerType::U16 => Value::U16(x as u16, span),
            IntegerType::U32 => Value::U32(x as u32, span),
            IntegerType::U64 => Value::U64(x as u64, span),
            IntegerType::U128 => Value::U128(x as u128, span),
        }
    }

    /// Where the value stands in the source.
    pub open spec fn location(self) -> Span {
        match self {
            Value::Address(_, span) => span,
            Value::Boolean(_, span) => span,
            Value::Field(_, span) => span,
            Value::Group(group) => group.location(),
            Value::I8(_, span) => span,
            Value::I16(_, span) => span,
            Value::I32(_, span) => span,
            Value::I64(_, span) => span,
            Value::I128(_, span) => span,
            Value::U8(_, span) => span,
            Value::U16(_, span) => span,
            Value::U32(_, span) => span,
            Value::U64(_, span) => span,
            Value::U128(_, span) => span,
            Value::Scalar(_, span) => span,
            Value::String(_, span) => span,
        }
    }

    /// The type of the value.
    pub open spec fn type_of(self) -> Type {
        match self {
            Value::Address(..) => Type::Address,
            Value::Boolean(..) => Type::Boolean,
            Value::Field(..) => Type::Field,
            Value::Group(..) => Type::Group,
            Value::Scalar(..) => Type::Scalar,
            Value::String(..) => Type::String,
            _ => Type::Integer(self.integer_type().unwrap()),
        }
    }

    /// The value as it is shown: a text by its characters, a boolean as `true` or
    /// `false`, an integer in decimal.
    pub open spec fn text(self) -> Seq<char> {
        match self {
            Value::Address(text, _) => text@,
            Value::Boolean(value, _) => if value {
                "true"@
            } else {
                "false"@
            },
            Value::Field(text, _) => text@,
            Value::Group(group) => group.text(),
            Value::Scalar(text, _) => text@,
            Value::String(text, _) => text@,
            _ => decimal(self.int_value()),
        }
    }

    /// The literal that stands for the value in the syntax tree.
    pub open spec fn literal(self) -> LiteralView {
        match self {
            Value::Address(text, span) => LiteralView::Address(text@, span),
            Value::Boolean(value, span) => LiteralView::Boolean(value, span),
            Value::Field(text, span) => LiteralView::Field(text@, span),
            Value::Group(group) => LiteralView::Group(*group),
            Value::Scalar(text, span) => LiteralView::Scalar(text@, span),
            Value::String(text, span) => LiteralView::String(text@, span),
            _ => LiteralView::Integer(
                self.integer_type().unwrap(),
                decimal(self.int_value()),
                self.location(),
            ),
        }
    }

    /// The size that the value stands for as a loop bound or an index. An unsigned
    /// integer is cut to the machine's size; a signed one must be a size already;
    /// no other kind is one.
    pub open spec fn size(self) -> Result<usize, ValueErrorView> {
        match self.integer_type() {
            Some(kind) => if !kind.signed() {
                Ok((self.int_value() % (usize::MAX + 1)) as usize)
            } else if 0 <= self.int_value() <= usize::MAX {
                Ok(self.int_value() as usize)
            } else {
                Err(
                    ValueErrorView::LoopHasNegativeValue {
                        type_: Type::Integer(kind),
                        span: self.location(),
                    },
                )
            },
            None => Err(
                ValueErrorView::CannotUseTypeAsLoopBound {
                    value: self.text(),
                    span: self.location(),
                },
            ),
        }
    }

    /// Whether the value is of a kind that is folded at compile time: a boolean or
    /// an integer.
    pub fn is_supported_const_fold_type(&self) -> (b: bool)
        ensures
            b == (self is Boolean || self.integer_type() is Some),
    {
        match self {
            Value::Boolean(..)
            | Value::I8(..)
            | Value::I16(..)
            | Value::I32(..)
            | Value::I64(..)
            | Value::I128(..)
            | Value::U8(..)
            | Value::U16(..)
            | Value::U32(..)
            | Value::U64(..)
            | Value::U128(..) => true,
            _ => false,
        }
    }

    /// The value as it is shown.
    pub fn to_string(&self) -> (s: String)
        ensures
            s@ == self.text(),
    {
        match self {
            Value::Address(text, _) => text.clone(),
            Value::Boolean(value, _) => if *value {
                String::from_str("true")
            } else {
                String::from_str("false")
            },
            Value::Field(text, _) => text.clone(),
            Value::Group(group) => group.to_string(),
            Value::I8(v, _) => signed_text(*v as i128),
            Value::I16(v, _) => signed_text(*v as i128),
            Value::I32(v, _) => signed_text(*v as i128),
            Value::I64(v, _) => signed_text(*v as i128),
            Value::I128(v, _) => signed_text(*v),
            Value::U8(v, _) => unsigned_text(*v as u128),
            Value::U16(v, _) => unsigned_text(*v as u128),
            Value::U32(v, _) => unsigned_text(*v as u128),
            Value::U64(v, _) => unsigned_text(*v as u128),
            Value::U128(v, _) => unsigned_text(*v),
            Value::Scalar(text, _) => text.clone(),
            Value::String(text, _) => text.clone(),
        }
    }
}

impl Value {
    /// The integer of type `type_` that `value` becomes when only the bits of that
    /// type are kept.
    pub fn from_usize(type_: Type, value: usize, span: Span) -> (v: Value)
        requires
            type_ is Integer,
        ensures
            v == Value::integer(type_->0, (type_->0).wrap(value as int), span),
    {
        let wide: u64 = value as u64;
        match type_ {
            Type::Integer(kind) => match kind {
                IntegerType::U8 => {
                    let x =
                    #[verifier::truncate]
                    (wide as u8);
                    assert(x == wide % 0x100) by (bit_vector)
                        requires
                            x == wide as u8,
                    ;
                    Value::U8(x, span)
                },
                IntegerType::U16 => {
                    let x =
                    #[verifier::truncate]
                    (wide as u16);
                    assert(x == wide % 0x1_0000) by (bit_vector)
                        requires
                            x == wide as u16,
                    ;
                    Value::U16(x, span)
                },
                IntegerType::U32 => {
                    let x =
                    #[verifier::truncate]
                    (wide as u32);
                    assert(x == wide % 0x1_0000_0000) by (bit_vector)
                        requires
                            x == wide as u32,
                    ;
                    Value::U32(x, span)
                },
                IntegerType::U64 => Value::U64(wide, span),
                IntegerType::U128 => Value::U128(wide as u128, span),
                IntegerType::I8 => {
                    let x =
                    #[verifier::truncate]
                    (wide as i8);
                    assert(x == (wide + 0x80) % 0x100 - 0x80) by (bit_vector)
                        requires
                            x == wide as i8,
                    ;
                    Value::I8(x, span)
                },
                IntegerType::I16 => {
                    let x =
                    #[verifier::truncate]
                    (wide as i16);
                    assert(x == (wide + 0x8000) % 0x1_0000 - 0x8000) by (bit_vector)
                        requires
                            x == wide as i16,
                    ;
                    Value::I16(x, span)
                },
                IntegerType::I32 => {
                    let x =
                    #[verifier::truncate]
                    (wide as i32);
                    assert(x == (wide + 0x8000_0000) % 0x1_0000_0000 - 0x8000_0000) by (bit_vector)
                        requires
                            x == wide as i32,
                    ;
                    Value::I32(x, span)
                },
                IntegerType::I64 => {
                    let x =
                    #[verifier::truncate]
                    (wide as i64);
                    assert(x == (wide + 0x8000_0000_0000_0000) % 0x1_0000_0000_0000_0000
                        - 0x8000_0000_0000_0000) by (bit_vector)
                        requires
                            x == wide as i64,
                    ;
                    Value::I64(x, span)
                },
                IntegerType::I128 => Value::I128(wide as i128, span),
            },
            _ => unreached(),
        }
    }
}

impl From<&Value> for Type {
    /// The type of the value.
    fn from(v: &Value) -> (t: Type)
        ensures
            t == v.type_of(),
    {
        match v {
            Value::Address(..) => Type::Address,
            Value::Boolean(..) => Type::Boolean,
            Value::Field(..) => Type::Field,
            Value::Group(..) => Type::Group,
            Value::I8(..) => Type::Integer(IntegerType::I8),
            Value::I16(..) => Type::Integer(IntegerType::I16),
            Value::I32(..) => Type::Integer(IntegerType::I32),
            Value::I64(..) => Type::Integer(IntegerType::I64),
            Value::I128(..) => Type::Integer(IntegerType::I128),
            Value::U8(..) => Type::Integer(IntegerType::U8),
            Value::U16(..) => Type::Integer(IntegerType::U16),
            Value::U32(..) => Type::Integer(IntegerType::U32),
            Value::U64(..) => Type::Integer(IntegerType::U64),
            Value::U128(..) => Type::Integer(IntegerType::U128),
            Value::Scalar(..) => Type::Scalar,
            Value::String(..) => Type::String,
        }
    }
}

impl vstd::std_specs::convert::FromSpecImpl<&Value> for Type {
    open spec fn obeys_from_spec() -> bool {
        true
    }

    open spec fn from_spec(v: &Value) -> Type {
        v.type_of()
    }
}

impl From<Value> for Type {
    /// The type of the value.
    fn from(v: Value) -> (t: Type)
        ensures
            t == v.type_of(),
    {
        Type::from(&v)
    }
}

impl vstd::std_specs::convert::FromSpecImpl<Value> for Type {
    open spec fn obeys_from_spec() -> bool {
        true
    }

    open spec fn from_spec(v: Value) -> Type {
        v.type_of()
    }
}

impl From<Value> for LiteralExpression {
    /// The literal that stands for the value in the syntax tree.
    fn from(v: Value) -> (literal: LiteralExpression)
        ensures
            literal@ == v.literal(),
    {
        match v {
            Value::Address(text, span) => LiteralExpression::Address(text, span),
            Value::Boolean(value, span) => LiteralExpression::Boolean(value, span),
            Value::Field(text, span) => LiteralExpression::Field(text, span),
            Value::Group(group) => LiteralExpression::Group(group),
            Value::I8(v, span) => LiteralExpression::Integer(
                IntegerType::I8,
                signed_text(v as i128),
                span,
            ),
            Value::I16(v, span) => LiteralExpression::Integer(
                IntegerType::I16,
                signed_text(v as i128),
                span,
            ),
            Value::I32(v, span) => LiteralExpression::Integer(
                IntegerType::I32,
                signed_text(v as i128),
                span,
            ),
            Value::I64(v, span) => LiteralExpression::Integer(
                IntegerType::I64,
                signed_text(v as i128),
                span,
            ),
            Value::I128(v, span) => LiteralExpression::Integer(
                IntegerType::I128,
                signed_text(v),
                span,
            ),
            Value::U8(v, span) => LiteralExpression::Integer(
                IntegerType::U8,
                unsigned_text(v as u128),
                span,
            ),
            Value::U16(v, span) => LiteralExpression::Integer(
                IntegerType::U16,
                unsigned_text(v as u128),
                span,
            ),
            Value::U32(v, span) => LiteralExpression::Integer(
                IntegerType::U32,
                unsigned_text(v as u128),
                span,
            ),
            Value::U64(v, span) => LiteralExpression::Integer(
                IntegerType::U64,
                unsigned_text(v as u128),
                span,
            ),
            Value::U128(v, span) => LiteralExpression::Integer(
                IntegerType::U128,
                unsigned_text(v),
                span,
            ),
            Value::Scalar(text, span) => LiteralExpression::Scalar(text, span),
            Value::String(text, span) => LiteralExpression::String(text, span),
        }
    }
}

/// The literal holds texts, and is stated by its view in the contract of `from`.
impl vstd::std_specs::convert::FromSpecImpl<Value> for LiteralExpression {
    open spec fn obeys_from_spec() -> bool {
        false
    }

    open spec fn from_spec(v: Value) -> LiteralExpression {
        arbitrary()
    }
}

impl TryFrom<&Value> for usize {
    type Error = ValueError;

    /// The size that the value stands for as a loop bound or an index.
    fn try_from(value: &Value) -> (r: Result<usize, ValueError>)
        ensures
            match r {
                Ok(n) => value.size() == Ok::<usize, ValueErrorView>(n),
                Err(e) => value.size() == Err::<usize, ValueErrorView>(e@),
            },
    {
        match value {
            Value::I8(v, span) => match usize::try_from(*v) {
                Ok(n) => Ok(n),
                Err(_) => Err(
                    ValueError::LoopHasNegativeValue {
                        type_: Type::Integer(IntegerType::I8),
                        span: *span,
                    },
                ),
            },
            Value::I16(v, span) => match usize::try_from(*v) {
                Ok(n) => Ok(n),
                Err(_) => Err(
                    ValueError::LoopHasNegativeValue {
                        type_: Type::Integer(IntegerType::I16),
                        span: *span,
                    },
                ),
            },
            Value::I32(v, span) => match usize::try_from(*v) {
                Ok(n) => Ok(n),
                Err(_) => Err(
                    ValueError::LoopHasNegativeValue {
                        type_: Type::Integer(IntegerType::I32),
                        span: *span,
                    },
                ),
            },
            Value::I64(v, span) => match usize::try_from(*v) {
                Ok(n) => Ok(n),
                Err(_) => Err(
                    ValueError::LoopHasNegativeValue {
                        type_: Type::Integer(IntegerType::I64),
                        span: *span,
                    },
                ),
            },
            Value::I128(v, span) => match usize::try_from(*v) {
                Ok(n) => Ok(n),
                Err(_) => Err(
                    ValueError::LoopHasNegativeValue {
                        type_: Type::Integer(IntegerType::I128),
                        span: *span,
                    },
                ),
            },
            Value::U8(v, _) => {
                proof {
                    lemma_small_mod(*v as nat, (usize::MAX + 1) as nat);
                }
                Ok(*v as usize)
            },
            Value::U16(v, _) => {
                proof {
                    lemma_small_mod(*v as nat, (usize::MAX + 1) as nat);
                }
                Ok(*v as usize)
            },
            Value::U32(v, _) => {
                proof {
                    lemma_small_mod(*v as nat, (usize::MAX + 1) as nat);
                }
                Ok(*v as usize)
            },
            Value::U64(v, _) => Ok((*v as u128 % (usize::MAX as u128 + 1)) as usize),
            Value::U128(v, _) => Ok((*v % (usize::MAX as u128 + 1)) as usize),
            Value::Address(_, span)
            | Value::Boolean(_, span)
            | Value::Field(_, span)
            | Value::Scalar(_, span)
            | Value::String(_, span) => Err(
                ValueError::CannotUseTypeAsLoopBound { value: value.to_string(), span: *span },
            ),
            Value::Group(group) => Err(
                ValueError::CannotUseTypeAsLoopBound {
                    value: value.to_string(),
                    span: group.span(),
                },
            ),
        }
    }
}

/// The diagnostic holds texts, and is stated by its view in the contract of
/// `try_from`.
impl vstd::std_specs::convert::TryFromSpecImpl<&Value> for usize {
    open spec fn obeys_try_from_spec() -> bool {
        false
    }

    open spec fn try_from_spec(value: &Value) -> Result<usize, ValueError> {
        arbitrary()
    }
}

impl TryFrom<Value> for usize {
    type Error = ValueError;

    /// The size that the value stands for as a loop bound or an index.
    fn try_from(value: Value) -> (r: Result<usize, ValueError>)
        ensures
            match r {
                Ok(n) => value.size() == Ok::<usize, ValueErrorView>(n),
                Err(e) => value.size() == Err::<usize, ValueErrorView>(e@),
            },
    {
        usize::try_from(&value)
    }
}

/// The diagnostic holds texts, and is stated by its view in the contract of
/// `try_from`.
impl vstd::std_specs::convert::TryFromSpecImpl<Value> for usize {
    open spec fn obeys_try_from_spec() -> bool {
        false
    }

    open spec fn try_from_spec(value: Value) -> Result<usize, ValueError> {
        arbitrary()
    }
}

/// A size that an integer kind holds is the same size again after it has been made
/// a value of that kind and read back: for every kind `kind` and every `n` with
/// `kind.holds(n)`, the size of `from_usize(kind, n, span)` is `n`.
pub proof fn lemma_from_usize_round_trip(kind: IntegerType, n: usize, span: Span)
    requires
        kind.holds(n as int),
    ensures
        kind.wrap(n as int) == n,
        Value::integer(kind, kind.wrap(n as int), span).size() == Ok::<usize, ValueErrorView>(n),
{
    lemma_small_mod((n - kind.lowest()) as nat, kind.modulus() as nat);
    lemma_small_mod(n as nat, (usize::MAX + 1) as nat);
}

} // verus!
