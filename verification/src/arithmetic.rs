//! Sums, differences, products and quotients of constant values.
//!
//! Every operation takes its operands by value and the place in the source that its
//! result is to have. The operand kinds that an operation is defined on are its
//! precondition: type checking has established them for every program that
//! reaches constant folding. A checked operation returns the diagnostic of an
//! overflow where the exact result is not of the kind; a wrapped operation returns
//! the exact result wrapped into the kind.

use crate::decimal::decimal;
use crate::error::{ValueError, ValueErrorView};
use crate::span::Span;
use crate::types::{lemma_wrap_congruent, lemma_wrap_held, lemma_wrap_remainder, IntegerType};
use crate::value::Value;
use vstd::prelude::*;
use vstd::string::*;

verus! {

/// The diagnostic of an operation `op` that failed on `left` and `right`.
pub open spec fn overflow(left: Value, op: Seq<char>, right: Value, span: Span) -> ValueErrorView {
    ValueErrorView::OperationOverflow {
        left: decimal(left.int_value()),
        op,
        right: decimal(right.int_value()),
        right_type: right.integer_type().unwrap().keyword(),
        span,
    }
}

/// Whether `r` is what a checked operation returns whose exact result is `x`, where
/// `defined` says that the operation has a result at all: the integer of kind
/// `kind` that holds `x` if the kind holds it, and `failure` if not.
pub open spec fn checked(
    r: Result<Value, ValueError>,
    defined: bool,
    kind: IntegerType,
    x: int,
    span: Span,
    failure: ValueErrorView,
) -> bool {
    match r {
        Ok(v) => defined && kind.holds(x) && v == Value::integer(kind, x, span),
        Err(e) => !(defined && kind.holds(x)) && e@ == failure,
    }
}

/// The quotient of `x` by `d` rounded towards zero, for a `d` that is not zero.
pub open spec fn quotient(x: int, d: int) -> int {
    if x >= 0 && d > 0 {
        x / d
    } else if x < 0 && d < 0 {
        (-x) / (-d)
    } else if x < 0 {
        -((-x) / d)
    } else {
        -(x / (-d))
    }
}

/// The value of kind `i8` that a checked native operation gave, if it gave one.
fn pack_i8(x: Option<i8>, span: Span) -> (v: Option<Value>)
    ensures
        v == match x {
            Some(x) => Some(Value::I8(x, span)),
            None => None,
        },
{
    match x {
        Some(x) => Some(Value::I8(x, span)),
        None => None,
    }
}

/// The value of kind `i16` that a checked native operation gave, if it gave one.
fn pack_i16(x: Option<i16>, span: Span) -> (v: Option<Value>)
    ensures
        v == match x {
            Some(x) => Some(Value::I16(x, span)),
            None => None,
        },
{
    match x {
        Some(x) => Some(Value::I16(x, span)),
        None => None,
    }
}

/// The value of kind `i32` that a checked native operation gave, if it gave one.
fn pack_i32(x: Option<i32>, span: Span) -> (v: Option<Value>)
    ensures
        v == match x {
            Some(x) => Some(Value::I32(x, span)),
            None => None,
        },
{
    match x {
        Some(x) => Some(Value::I32(x, span)),
        None => None,
    }
}

/// The value of kind `i64` that a checked native operation gave, if it gave one.
fn pack_i64(x: Option<i64>, span: Span) -> (v: Option<Value>)
    ensures
        v == match x {
            Some(x) => Some(Value::I64(x, span)),
            None => None,
        },
{
    match x {
        Some(x) => Some(Value::I64(x, span)),
        None => None,
    }
}

/// The value of kind `i128` that a checked native operation gave, if it gave one.
fn pack_i128(x: Option<i128>, span: Span) -> (v: Option<Value>)
    ensures
        v == match x {
            Some(x) => Some(Value::I128(x, span)),
            None => None,
        },
{
    match x {
        Some(x) => Some(Value::I128(x, span)),
        None => None,
    }
}

/// The value of kind `u8` that a checked native operation gave, if it gave one.
fn pack_u8(x: Option<u8>, span: Span) -> (v: Option<Value>)
    ensures
        v == match x {
            Some(x) => Some(Value::U8(x, span)),
            None => None,
        },
{
    match x {
        Some(x) => Some(Value::U8(x, span)),
        None => None,
    }
}

/// The value of kind `u16` that a checked native operation gave, if it gave one.
fn pack_u16(x: Option<u16>, span: Span) -> (v: Option<Value>)
    ensures
        v == match x {
            Some(x) => Some(Value::U16(x, span)),
            None => None,
        },
{
    match x {
        Some(x) => Some(Value::U16(x, span)),
        None => None,
    }
}

/// The value of kind `u32` that a checked native operation gave, if it gave one.
fn pack_u32(x: Option<u32>, span: Span) -> (v: Option<Value>)
    ensures
        v == match x {
            Some(x) => Some(Value::U32(x, span)),
            None => None,
        },
{
    match x {
        Some(x) => Some(Value::U32(x, span)),
        None => None,
    }
}

/// The value of kind `u64` that a checked native operation gave, if it gave one.
fn pack_u64(x: Option<u64>, span: Span) -> (v: Option<Value>)
    ensures
        v == match x {
            Some(x) => Some(Value::U64(x, span)),
            None => None,
        },
{
    match x {
        Some(x) => Some(Value::U64(x, span)),
        None => None,
    }
}

/// The value of kind `u128` that a checked native operation gave, if it gave one.
fn pack_u128(x: Option<u128>, span: Span) -> (v: Option<Value>)
    ensures
        v == match x {
            Some(x) => Some(Value::U128(x, span)),
            None => None,
        },
{
    match x {
        Some(x) => Some(Value::U128(x, span)),
        None => None,
    }
}

impl Value {
    /// The integer kind of the value, if it is an integer.
    pub fn kind(&self) -> (kind: Option<IntegerType>)
        ensures
            kind == self.integer_type(),
    {
        match self {
            Value::I8(..) => Some(IntegerType::I8),
            Value::I16(..) => Some(IntegerType::I16),
            Value::I32(..) => Some(IntegerType::I32),
            Value::I64(..) => Some(IntegerType::I64),
            Value::I128(..) => Some(IntegerType::I128),
            Value::U8(..) => Some(IntegerType::U8),
            Value::U16(..) => Some(IntegerType::U16),
            Value::U32(..) => Some(IntegerType::U32),
            Value::U64(..) => Some(IntegerType::U64),
            Value::U128(..) => Some(IntegerType::U128),
            _ => None,
        }
    }

    /// Whether the value can be an exponent or a shift amount: an unsigned integer of
    /// at most 32 bits.
    pub open spec fn is_amount(self) -> bool {
        self is U8 || self is U16 || self is U32
    }

    /// The number that an exponent or a shift amount holds.
    pub(crate) fn amount(&self) -> (n: u32)
        requires
            self.is_amount(),
        ensures
            n == self.int_value(),
    {
        match self {
            Value::U8(v, _) => *v as u32,
            Value::U16(v, _) => *v as u32,
            Value::U32(v, _) => *v,
            _ => unreached(),
        }
    }

    /// The diagnostic of an operation `op` that failed on `self` and `right`.
    pub(crate) fn overflow_error(&self, op: &str, right: &Value, span: Span) -> (e: ValueError)
        requires
            self.integer_type() is Some,
            right.integer_type() is Some,
        ensures
            e@ == overflow(*self, op@, *right, span),
    {
        let name = match right.kind() {
            Some(kind) => kind.name(),
            None => unreached(),
        };
        ValueError::OperationOverflow {
            left: self.to_string(),
            op: String::from_str(op),
            right: right.to_string(),
            right_type: String::from_str(name),
            span,
        }
    }

    /// The sum of two integers of one kind, or the diagnostic if the kind does not hold
    /// it.
    pub fn add(self, other: Value, span: Span) -> (r: Result<Value, ValueError>)
        requires
            self.integer_type() is Some,
            other.integer_type() == self.integer_type(),
        ensures
            checked(
                r,
                true,
                self.integer_type().unwrap(),
                self.int_value() + other.int_value(),
                span,
                overflow(self, "+"@, other, span),
            ),
    {
        let outcome = match (&self, &other) {
            (Value::I8(l, _), Value::I8(r, _)) => pack_i8(l.checked_add(*r), span),
            (Value::I16(l, _), Value::I16(r, _)) => pack_i16(l.checked_add(*r), span),
            (Value::I32(l, _), Value::I32(r, _)) => pack_i32(l.checked_add(*r), span),
            (Value::I64(l, _), Value::I64(r, _)) => pack_i64(l.checked_add(*r), span),
            (Value::I128(l, _), Value::I128(r, _)) => pack_i128(l.checked_add(*r), span),
            (Value::U8(l, _), Value::U8(r, _)) => pack_u8(l.checked_add(*r), span),
            (Value::U16(l, _), Value::U16(r, _)) => pack_u16(l.checked_add(*r), span),
            (Value::U32(l, _), Value::U32(r, _)) => pack_u32(l.checked_add(*r), span),
            (Value::U64(l, _), Value::U64(r, _)) => pack_u64(l.checked_add(*r), span),
            (Value::U128(l, _), Value::U128(r, _)) => pack_u128(l.checked_add(*r), span),
            _ => unreached(),
        };
        match outcome {
            Some(v) => Ok(v),
            None => Err(self.overflow_error("+", &other, span)),
        }
    }

    /// The sum of two integers of one kind, wrapped into the kind.
    pub fn add_wrapped(self, other: Value, span: Span) -> (v: Value)
        requires
            self.integer_type() is Some,
            other.integer_type() == self.integer_type(),
        ensures
            v == Value::integer(
                self.integer_type().unwrap(),
                self.integer_type().unwrap().wrap(self.int_value() + other.int_value()),
                span,
            ),
    {
        proof {
            let kind = self.integer_type().unwrap();
            let x = self.int_value() + other.int_value();
            if kind.holds(x) {
                lemma_wrap_held(kind, x);
            } else if x > kind.highest() {
                lemma_wrap_congruent(kind, x, x - kind.modulus(), 1);
                lemma_wrap_held(kind, x - kind.modulus());
            } else {
                lemma_wrap_congruent(kind, x, x + kind.modulus(), -1);
                lemma_wrap_held(kind, x + kind.modulus());
            }
        }
        match (self, other) {
            (Value::I8(l, _), Value::I8(r, _)) => Value::I8(l.wrapping_add(r), span),
            (Value::I16(l, _), Value::I16(r, _)) => Value::I16(l.wrapping_add(r), span),
            (Value::I32(l, _), Value::I32(r, _)) => Value::I32(l.wrapping_add(r), span),
            (Value::I64(l, _), Value::I64(r, _)) => Value::I64(l.wrapping_add(r), span),
            (Value::I128(l, _), Value::I128(r, _)) => Value::I128(l.wrapping_add(r), span),
            (Value::U8(l, _), Value::U8(r, _)) => Value::U8(l.wrapping_add(r), span),
            (Value::U16(l, _), Value::U16(r, _)) => Value::U16(l.wrapping_add(r), span),
            (Value::U32(l, _), Value::U32(r, _)) => Value::U32(l.wrapping_add(r), span),
            (Value::U64(l, _), Value::U64(r, _)) => Value::U64(l.wrapping_add(r), span),
            (Value::U128(l, _), Value::U128(r, _)) => Value::U128(l.wrapping_add(r), span),
            _ => unreached(),
        }
    }

    /// The difference of two integers of one kind, or the diagnostic if the kind does
    /// not hold it.
    pub fn sub(self, other: Value, span: Span) -> (r: Result<Value, ValueError>)
        requires
            self.integer_type() is Some,
            other.integer_type() == self.integer_type(),
        ensures
            checked(
                r,
                true,
                self.integer_type().unwrap(),
                self.int_value() - other.int_value(),
                span,
                overflow(self, "-"@, other, span),
            ),
    {
        let outcome = match (&self, &other) {
            (Value::I8(l, _), Value::I8(r, _)) => pack_i8(l.checked_sub(*r), span),
            (Value::I16(l, _), Value::I16(r, _)) => pack_i16(l.checked_sub(*r), span),
            (Value::I32(l, _), Value::I32(r, _)) => pack_i32(l.checked_sub(*r), span),
            (Value::I64(l, _), Value::I64(r, _)) => pack_i64(l.checked_sub(*r), span),
            (Value::I128(l, _), Value::I128(r, _)) => pack_i128(l.checked_sub(*r), span),
            (Value::U8(l, _), Value::U8(r, _)) => pack_u8(l.checked_sub(*r), span),
            (Value::U16(l, _), Value::U16(r, _)) => pack_u16(l.checked_sub(*r), span),
            (Value::U32(l, _), Value::U32(r, _)) => pack_u32(l.checked_sub(*r), span),
            (Value::U64(l, _), Value::U64(r, _)) => pack_u64(l.checked_sub(*r), span),
            (Value::U128(l, _), Value::U128(r, _)) => pack_u128(l.checked_sub(*r), span),
            _ => unreached(),
        };
        match outcome {
            Some(v) => Ok(v),
            None => Err(self.overflow_error("-", &other, span)),
        }
    }

    /// The difference of two integers of one kind, wrapped into the kind.
    pub fn sub_wrapped(self, other: Value, span: Span) -> (v: Value)
        requires
            self.integer_type() is Some,
            other.integer_type() == self.integer_type(),
        ensures
            v == Value::integer(
                self.integer_type().unwrap(),
                self.integer_type().unwrap().wrap(self.int_value() - other.int_value()),
                span,
            ),
    {
        proof {
            let kind = self.integer_type().unwrap();
            let x = self.int_value() - other.int_value();
            if kind.holds(x) {
                lemma_wrap_held(kind, x);
            } else if x > kind.highest() {
                lemma_wrap_congruent(kind, x, x - kind.modulus(), 1);
                lemma_wrap_held(kind, x - kind.modulus());
            } else {
                lemma_wrap_congruent(kind, x, x + kind.modulus(), -1);
                lemma_wrap_held(kind, x + kind.modulus());
            }
        }
        match (self, other) {
            (Value::I8(l, _), Value::I8(r, _)) => Value::I8(l.wrapping_sub(r), span),
            (Value::I16(l, _), Value::I16(r, _)) => Value::I16(l.wrapping_sub(r), span),
            (Value::I32(l, _), Value::I32(r, _)) => Value::I32(l.wrapping_sub(r), span),
            (Value::I64(l, _), Value::I64(r, _)) => Value::I64(l.wrapping_sub(r), span),
            (Value::I128(l, _), Value::I128(r, _)) => Value::I128(l.wrapping_sub(r), span),
            (Value::U8(l, _), Value::U8(r, _)) => Value::U8(l.wrapping_sub(r), span),
            (Value::U16(l, _), Value::U16(r, _)) => Value::U16(l.wrapping_sub(r), span),
            (Value::U32(l, _), Value::U32(r, _)) => Value::U32(l.wrapping_sub(r), span),
            (Value::U64(l, _), Value::U64(r, _)) => Value::U64(l.wrapping_sub(r), span),
            (Value::U128(l, _), Value::U128(r, _)) => Value::U128(l.wrapping_sub(r), span),
            _ => unreached(),
        }
    }

    /// The product of two integers of one kind, or the diagnostic if the kind does not
    /// hold it.
    pub fn mul(self, other: Value, span: Span) -> (r: Result<Value, ValueError>)
        requires
            self.integer_type() is Some,
            other.integer_type() == self.integer_type(),
        ensures
            checked(
                r,
                true,
                self.integer_type().unwrap(),
                self.int_value() * other.int_value(),
                span,
                overflow(self, "*"@, other, span),
            ),
    {
        let outcome = match (&self, &other) {
            (Value::I8(l, _), Value::I8(r, _)) => pack_i8(l.checked_mul(*r), span),
            (Value::I16(l, _), Value::I16(r, _)) => pack_i16(l.checked_mul(*r), span),
            (Value::I32(l, _), Value::I32(r, _)) => pack_i32(l.checked_mul(*r), span),
            (Value::I64(l, _), Value::I64(r, _)) => pack_i64(l.checked_mul(*r), span),
            (Value::I128(l, _), Value::I128(r, _)) => pack_i128(l.checked_mul(*r), span),
            (Value::U8(l, _), Value::U8(r, _)) => pack_u8(l.checked_mul(*r), span),
            (Value::U16(l, _), Value::U16(r, _)) => pack_u16(l.checked_mul(*r), span),
            (Value::U32(l, _), Value::U32(r, _)) => pack_u32(l.checked_mul(*r), span),
            (Value::U64(l, _), Value::U64(r, _)) => pack_u64(l.checked_mul(*r), span),
            (Value::U128(l, _), Value::U128(r, _)) => pack_u128(l.checked_mul(*r), span),
            _ => unreached(),
        };
        match outcome {
            Some(v) => Ok(v),
            None => Err(self.overflow_error("*", &other, span)),
        }
    }

    /// The product of two integers of one kind, wrapped into the kind.
    pub fn mul_wrapped(self, other: Value, span: Span) -> (v: Value)
        requires
            self.integer_type() is Some,
            other.integer_type() == self.integer_type(),
        ensures
            v == Value::integer(
                self.integer_type().unwrap(),
                self.integer_type().unwrap().wrap(self.int_value() * other.int_value()),
                span,
            ),
    {
        proof {
            lemma_wrap_remainder(
                self.integer_type().unwrap(),
                self.int_value() * other.int_value(),
            );
        }
        match (self, other) {
            (Value::I8(l, _), Value::I8(r, _)) => Value::I8(l.wrapping_mul(r), span),
            (Value::I16(l, _), Value::I16(r, _)) => Value::I16(l.wrapping_mul(r), span),
            (Value::I32(l, _), Value::I32(r, _)) => Value::I32(l.wrapping_mul(r), span),
            (Value::I64(l, _), Value::I64(r, _)) => Value::I64(l.wrapping_mul(r), span),
            (Value::I128(l, _), Value::I128(r, _)) => Value::I128(l.wrapping_mul(r), span),
            (Value::U8(l, _), Value::U8(r, _)) => Value::U8(l.wrapping_mul(r), span),
            (Value::U16(l, _), Value::U16(r, _)) => Value::U16(l.wrapping_mul(r), span),
            (Value::U32(l, _), Value::U32(r, _)) => Value::U32(l.wrapping_mul(r), span),
            (Value::U64(l, _), Value::U64(r, _)) => Value::U64(l.wrapping_mul(r), span),
            (Value::U128(l, _), Value::U128(r, _)) => Value::U128(l.wrapping_mul(r), span),
            _ => unreached(),
        }
    }

    /// The quotient of two integers of one kind, rounded towards zero; the diagnostic
    /// if the divisor is zero or the kind does not hold the quotient.
    pub fn div(self, other: Value, span: Span) -> (r: Result<Value, ValueError>)
        requires
            self.integer_type() is Some,
            other.integer_type() == self.integer_type(),
        ensures
            checked(
                r,
                other.int_value() != 0,
                self.integer_type().unwrap(),
                quotient(self.int_value(), other.int_value()),
                span,
                overflow(self, "/"@, other, span),
            ),
    {
        let outcome = match (&self, &other) {
            (Value::I8(l, _), Value::I8(r, _)) => pack_i8(l.checked_div(*r), span),
            (Value::I16(l, _), Value::I16(r, _)) => pack_i16(l.checked_div(*r), span),
            (Value::I32(l, _), Value::I32(r, _)) => pack_i32(l.checked_div(*r), span),
            (Value::I64(l, _), Value::I64(r, _)) => pack_i64(l.checked_div(*r), span),
            (Value::I128(l, _), Value::I128(r, _)) => pack_i128(l.checked_div(*r), span),
            (Value::U8(l, _), Value::U8(r, _)) => pack_u8(l.checked_div(*r), span),
            (Value::U16(l, _), Value::U16(r, _)) => pack_u16(l.checked_div(*r), span),
            (Value::U32(l, _), Value::U32(r, _)) => pack_u32(l.checked_div(*r), span),
            (Value::U64(l, _), Value::U64(r, _)) => pack_u64(l.checked_div(*r), span),
            (Value::U128(l, _), Value::U128(r, _)) => pack_u128(l.checked_div(*r), span),
            _ => unreached(),
        };
        match outcome {
            Some(v) => Ok(v),
            None => Err(self.overflow_error("/", &other, span)),
        }
    }

    /// The quotient of two integers of one kind, rounded towards zero and wrapped into
    /// the kind. The divisor is not zero.
    pub fn div_wrapped(self, other: Value, span: Span) -> (v: Value)
        requires
            self.integer_type() is Some,
            other.integer_type() == self.integer_type(),
            other.int_value() != 0,
        ensures
            v == Value::integer(
                self.integer_type().unwrap(),
                self.integer_type().unwrap().wrap(quotient(self.int_value(), other.int_value())),
                span,
            ),
    {
        proof {
            let kind = self.integer_type().unwrap();
            let q = quotient(self.int_value(), other.int_value());
            if kind.holds(q) {
                lemma_wrap_held(kind, q);
            } else {
                lemma_wrap_congruent(kind, q, q - kind.modulus(), 1);
                lemma_wrap_held(kind, q - kind.modulus());
            }
        }
        match (self, other) {
            (Value::I8(l, _), Value::I8(r, _)) => match l.checked_div(r) {
                Some(q) => Value::I8(q, span),
                None => Value::I8(l, span),
            },
            (Value::I16(l, _), Value::I16(r, _)) => match l.checked_div(r) {
                Some(q) => Value::I16(q, span),
                None => Value::I16(l, span),
            },
            (Value::I32(l, _), Value::I32(r, _)) => match l.checked_div(r) {
                Some(q) => Value::I32(q, span),
                None => Value::I32(l, span),
            },
            (Value::I64(l, _), Value::I64(r, _)) => match l.checked_div(r) {
                Some(q) => Value::I64(q, span),
                None => Value::I64(l, span),
            },
            (Value::I128(l, _), Value::I128(r, _)) => match l.checked_div(r) {
                Some(q) => Value::I128(q, span),
                None => Value::I128(l, span),
            },
            (Value::U8(l, _), Value::U8(r, _)) => match l.checked_div(r) {
                Some(q) => Value::U8(q, span),
                None => Value::U8(l, span),
            },
            (Value::U16(l, _), Value::U16(r, _)) => match l.checked_div(r) {
                Some(q) => Value::U16(q, span),
                None => Value::U16(l, span),
            },
            (Value::U32(l, _), Value::U32(r, _)) => match l.checked_div(r) {
                Some(q) => Value::U32(q, span),
                None => Value::U32(l, span),
            },
            (Value::U64(l, _), Value::U64(r, _)) => match l.checked_div(r) {
                Some(q) => Value::U64(q, span),
                None => Value::U64(l, span),
            },
            (Value::U128(l, _), Value::U128(r, _)) => match l.checked_div(r) {
                Some(q) => Value::U128(q, span),
                None => Value::U128(l, span),
            },
            _ => unreached(),
        }
    }
}

} // verus!
