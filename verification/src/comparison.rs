//! The order of constant values.
//!
//! Two integers of one kind are compared by the numbers that they hold. The result
//! is a boolean at the place in the source that is given.

use crate::span::Span;
use crate::value::Value;
use vstd::prelude::*;

verus! {

impl Value {
    /// Whether two integers of one kind are equal.
    pub fn eq(self, other: Value, span: Span) -> (v: Value)
        requires
            self.integer_type() is Some,
            other.integer_type() == self.integer_type(),
        ensures
            v == Value::Boolean(self.int_value() == other.int_value(), span),
    {
        match (self, other) {
            (Value::I8(l, _), Value::I8(r, _)) => Value::Boolean(l == r, span),
            (Value::I16(l, _), Value::I16(r, _)) => Value::Boolean(l == r, span),
            (Value::I32(l, _), Value::I32(r, _)) => Value::Boolean(l == r, span),
            (Value::I64(l, _), Value::I64(r, _)) => Value::Boolean(l == r, span),
            (Value::I128(l, _), Value::I128(r, _)) => Value::Boolean(l == r, span),
            (Value::U8(l, _), Value::U8(r, _)) => Value::Boolean(l == r, span),
            (Value::U16(l, _), Value::U16(r, _)) => Value::Boolean(l == r, span),
            (Value::U32(l, _), Value::U32(r, _)) => Value::Boolean(l == r, span),
            (Value::U64(l, _), Value::U64(r, _)) => Value::Boolean(l == r, span),
            (Value::U128(l, _), Value::U128(r, _)) => Value::Boolean(l == r, span),
            _ => unreached(),
        }
    }

    /// Whether the first of two integers of one kind is at least the second.
    pub fn ge(self, other: Value, span: Span) -> (v: Value)
        requires
            self.integer_type() is Some,
            other.integer_type() == self.integer_type(),
        ensures
            v == Value::Boolean(self.int_value() >= other.int_value(), span),
    {
        match (self, other) {
            (Value::I8(l, _), Value::I8(r, _)) => Value::Boolean(l >= r, span),
            (Value::I16(l, _), Value::I16(r, _)) => Value::Boolean(l >= r, span),
            (Value::I32(l, _), Value::I32(r, _)) => Value::Boolean(l >= r, span),
            (Value::I64(l, _), Value::I64(r, _)) => Value::Boolean(l >= r, span),
            (Value::I128(l, _), Value::I128(r, _)) => Value::Boolean(l >= r, span),
            (Value::U8(l, _), Value::U8(r, _)) => Value::Boolean(l >= r, span),
            (Value::U16(l, _), Value::U16(r, _)) => Value::Boolean(l >= r, span),
            (Value::U32(l, _), Value::U32(r, _)) => Value::Boolean(l >= r, span),
            (Value::U64(l, _), Value::U64(r, _)) => Value::Boolean(l >= r, span),
            (Value::U128(l, _), Value::U128(r, _)) => Value::Boolean(l >= r, span),
            _ => unreached(),
        }
    }

    /// Whether the first of two integers of one kind is greater than the second.
    pub fn gt(self, other: Value, span: Span) -> (v: Value)
        requires
            self.integer_type() is Some,
            other.integer_type() == self.integer_type(),
        ensures
            v == Value::Boolean(self.int_value() > other.int_value(), span),
    {
        match (self, other) {
            (Value::I8(l, _), Value::I8(r, _)) => Value::Boolean(l > r, span),
            (Value::I16(l, _), Value::I16(r, _)) => Value::Boolean(l > r, span),
            (Value::I32(l, _), Value::I32(r, _)) => Value::Boolean(l > r, span),
            (Value::I64(l, _), Value::I64(r, _)) => Value::Boolean(l > r, span),
            (Value::I128(l, _), Value::I128(r, _)) => Value::Boolean(l > r, span),
            (Value::U8(l, _), Value::U8(r, _)) => Value::Boolean(l > r, span),
            (Value::U16(l, _), Value::U16(r, _)) => Value::Boolean(l > r, span),
            (Value::U32(l, _), Value::U32(r, _)) => Value::Boolean(l > r, span),
            (Value::U64(l, _), Value::U64(r, _)) => Value::Boolean(l > r, span),
            (Value::U128(l, _), Value::U128(r, _)) => Value::Boolean(l > r, span),
            _ => unreached(),
        }
    }

    /// Whether the first of two integers of one kind is at most the second.
    pub fn le(self, other: Value, span: Span) -> (v: Value)
        requires
            self.integer_type() is Some,
            other.integer_type() == self.integer_type(),
        ensures
            v == Value::Boolean(self.int_value() <= other.int_value(), span),
    {
        match (self, other) {
            (Value::I8(l, _), Value::I8(r, _)) => Value::Boolean(l <= r, span),
            (Value::I16(l, _), Value::I16(r, _)) => Value::Boolean(l <= r, span),
            (Value::I32(l, _), Value::I32(r, _)) => Value::Boolean(l <= r, span),
            (Value::I64(l, _), Value::I64(r, _)) => Value::Boolean(l <= r, span),
            (Value::I128(l, _), Value::I128(r, _)) => Value::Boolean(l <= r, span),
            (Value::U8(l, _), Value::U8(r, _)) => Value::Boolean(l <= r, span),
            (Value::U16(l, _), Value::U16(r, _)) => Value::Boolean(l <= r, span),
            (Value::U32(l, _), Value::U32(r, _)) => Value::Boolean(l <= r, span),
            (Value::U64(l, _), Value::U64(r, _)) => Value::Boolean(l <= r, span),
            (Value::U128(l, _), Value::U128(r, _)) => Value::Boolean(l <= r, span),
            _ => unreached(),
        }
    }

    /// Whether the first of two integers of one kind is less than the second.
    pub fn lt(self, other: Value, span: Span) -> (v: Value)
        requires
            self.integer_type() is Some,
            other.integer_type() == self.integer_type(),
        ensures
            v == Value::Boolean(self.int_value() < other.int_value(), span),
    {
        match (self, other) {
            (Value::I8(l, _), Value::I8(r, _)) => Value::Boolean(l < r, span),
            (Value::I16(l, _), Value::I16(r, _)) => Value::Boolean(l < r, span),
            (Value::I32(l, _), Value::I32(r, _)) => Value::Boolean(l < r, span),
            (Value::I64(l, _), Value::I64(r, _)) => Value::Boolean(l < r, span),
            (Value::I128(l, _), Value::I128(r, _)) => Value::Boolean(l < r, span),
            (Value::U8(l, _), Value::U8(r, _)) => Value::Boolean(l < r, span),
            (Value::U16(l, _), Value::U16(r, _)) => Value::Boolean(l < r, span),
            (Value::U32(l, _), Value::U32(r, _)) => Value::Boolean(l < r, span),
            (Value::U64(l, _), Value::U64(r, _)) => Value::Boolean(l < r, span),
            (Value::U128(l, _), Value::U128(r, _)) => Value::Boolean(l < r, span),
            _ => unreached(),
        }
    }
}

} // verus!
