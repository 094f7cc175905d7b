//! Bitwise operations on constant values.
//!
//! A bitwise operation is defined on booleans and on integers; both operands of a
//! binary one are of one kind.

use crate::span::Span;
use crate::value::Value;
use vstd::prelude::*;

verus! {

impl Value {
    /// Whether the bitwise operations are defined on `self` and `other`: on two
    /// booleans and on two integers of one kind.
    pub open spec fn bitwise_with(self, other: Value) -> bool {
        ||| self is Boolean && other is Boolean
        ||| self.integer_type() is Some && other.integer_type() == self.integer_type()
    }

    /// The conjunction of two booleans, or of two integers of one kind bit by bit.
    pub open spec fn conjunction(self, other: Value, span: Span) -> Value {
        match (self, other) {
            (Value::Boolean(l, _), Value::Boolean(r, _)) => Value::Boolean(l && r, span),
            (Value::I8(l, _), Value::I8(r, _)) => Value::I8(l & r, span),
            (Value::I16(l, _), Value::I16(r, _)) => Value::I16(l & r, span),
            (Value::I32(l, _), Value::I32(r, _)) => Value::I32(l & r, span),
            (Value::I64(l, _), Value::I64(r, _)) => Value::I64(l & r, span),
            (Value::I128(l, _), Value::I128(r, _)) => Value::I128(l & r, span),
            (Value::U8(l, _), Value::U8(r, _)) => Value::U8(l & r, span),
            (Value::U16(l, _), Value::U16(r, _)) => Value::U16(l & r, span),
            (Value::U32(l, _), Value::U32(r, _)) => Value::U32(l & r, span),
            (Value::U64(l, _), Value::U64(r, _)) => Value::U64(l & r, span),
            (Value::U128(l, _), Value::U128(r, _)) => Value::U128(l & r, span),
            _ => self,
        }
    }

    /// The disjunction of two booleans, or of two integers of one kind bit by bit.
    pub open spec fn disjunction(self, other: Value, span: Span) -> Value {
        match (self, other) {
            (Value::Boolean(l, _), Value::Boolean(r, _)) => Value::Boolean(l || r, span),
            (Value::I8(l, _), Value::I8(r, _)) => Value::I8(l | r, span),
            (Value::I16(l, _), Value::I16(r, _)) => Value::I16(l | r, span),
            (Value::I32(l, _), Value::I32(r, _)) => Value::I32(l | r, span),
            (Value::I64(l, _), Value::I64(r, _)) => Value::I64(l | r, span),
            (Value::I128(l, _), Value::I128(r, _)) => Value::I128(l | r, span),
            (Value::U8(l, _), Value::U8(r, _)) => Value::U8(l | r, span),
            (Value::U16(l, _), Value::U16(r, _)) => Value::U16(l | r, span),
            (Value::U32(l, _), Value::U32(r, _)) => Value::U32(l | r, span),
            (Value::U64(l, _), Value::U64(r, _)) => Value::U64(l | r, span),
            (Value::U128(l, _), Value::U128(r, _)) => Value::U128(l | r, span),
            _ => self,
        }
    }

    /// The exclusive disjunction of two booleans, or of two integers of one kind bit by
    /// bit.
    pub open spec fn difference(self, other: Value, span: Span) -> Value {
        match (self, other) {
            (Value::Boolean(l, _), Value::Boolean(r, _)) => Value::Boolean(l != r, span),
            (Value::I8(l, _), Value::I8(r, _)) => Value::I8(l ^ r, span),
            (Value::I16(l, _), Value::I16(r, _)) => Value::I16(l ^ r, span),
            (Value::I32(l, _), Value::I32(r, _)) => Value::I32(l ^ r, span),
            (Value::I64(l, _), Value::I64(r, _)) => Value::I64(l ^ r, span),
            (Value::I128(l, _), Value::I128(r, _)) => Value::I128(l ^ r, span),
            (Value::U8(l, _), Value::U8(r, _)) => Value::U8(l ^ r, span),
            (Value::U16(l, _), Value::U16(r, _)) => Value::U16(l ^ r, span),
            (Value::U32(l, _), Value::U32(r, _)) => Value::U32(l ^ r, span),
            (Value::U64(l, _), Value::U64(r, _)) => Value::U64(l ^ r, span),
            (Value::U128(l, _), Value::U128(r, _)) => Value::U128(l ^ r, span),
            _ => self,
        }
    }

    /// The negation of a boolean, or of an integer bit by bit, at the place of the
    /// operand.
    pub open spec fn complement(self) -> Value {
        match self {
            Value::Boolean(v, span) => Value::Boolean(!v, span),
            Value::I8(v, span) => Value::I8(!v, span),
            Value::I16(v, span) => Value::I16(!v, span),
            Value::I32(v, span) => Value::I32(!v, span),
            Value::I64(v, span) => Value::I64(!v, span),
            Value::I128(v, span) => Value::I128(!v, span),
            Value::U8(v, span) => Value::U8(!v, span),
            Value::U16(v, span) => Value::U16(!v, span),
            Value::U32(v, span) => Value::U32(!v, span),
            Value::U64(v, span) => Value::U64(!v, span),
            Value::U128(v, span) => Value::U128(!v, span),
            _ => self,
        }
    }

    /// The conjunction of two booleans, or of two integers of one kind bit by bit.
    pub fn bitand(self, other: Value, span: Span) -> (v: Value)
        requires
            self.bitwise_with(other),
        ensures
            v == self.conjunction(other, span),
    {
        match (self, other) {
            (Value::Boolean(l, _), Value::Boolean(r, _)) => Value::Boolean(l && r, span),
            (Value::I8(l, _), Value::I8(r, _)) => Value::I8(l & r, span),
            (Value::I16(l, _), Value::I16(r, _)) => Value::I16(l & r, span),
            (Value::I32(l, _), Value::I32(r, _)) => Value::I32(l & r, span),
            (Value::I64(l, _), Value::I64(r, _)) => Value::I64(l & r, span),
            (Value::I128(l, _), Value::I128(r, _)) => Value::I128(l & r, span),
            (Value::U8(l, _), Value::U8(r, _)) => Value::U8(l & r, span),
            (Value::U16(l, _), Value::U16(r, _)) => Value::U16(l & r, span),
            (Value::U32(l, _), Value::U32(r, _)) => Value::U32(l & r, span),
            (Value::U64(l, _), Value::U64(r, _)) => Value::U64(l & r, span),
            (Value::U128(l, _), Value::U128(r, _)) => Value::U128(l & r, span),
            _ => unreached(),
        }
    }

    /// The disjunction of two booleans, or of two integers of one kind bit by bit.
    pub fn bitor(self, other: Value, span: Span) -> (v: Value)
        requires
            self.bitwise_with(other),
        ensures
            v == self.disjunction(other, span),
    {
        match (self, other) {
            (Value::Boolean(l, _), Value::Boolean(r, _)) => Value::Boolean(l || r, span),
            (Value::I8(l, _), Value::I8(r, _)) => Value::I8(l | r, span),
            (Value::I16(l, _), Value::I16(r, _)) => Value::I16(l | r, span),
            (Value::I32(l, _), Value::I32(r, _)) => Value::I32(l | r, span),
            (Value::I64(l, _), Value::I64(r, _)) => Value::I64(l | r, span),
            (Value::I128(l, _), Value::I128(r, _)) => Value::I128(l | r, span),
            (Value::U8(l, _), Value::U8(r, _)) => Value::U8(l | r, span),
            (Value::U16(l, _), Value::U16(r, _)) => Value::U16(l | r, span),
            (Value::U32(l, _), Value::U32(r, _)) => Value::U32(l | r, span),
            (Value::U64(l, _), Value::U64(r, _)) => Value::U64(l | r, span),
            (Value::U128(l, _), Value::U128(r, _)) => Value::U128(l | r, span),
            _ => unreached(),
        }
    }

    /// The exclusive disjunction of two booleans, or of two integers of one kind bit by
    /// bit.
    pub fn xor(self, other: Value, span: Span) -> (v: Value)
        requires
            self.bitwise_with(other),
        ensures
            v == self.difference(other, span),
    {
        match (self, other) {
            (Value::Boolean(l, _), Value::Boolean(r, _)) => Value::Boolean(l != r, span),
            (Value::I8(l, _), Value::I8(r, _)) => Value::I8(l ^ r, span),
            (Value::I16(l, _), Value::I16(r, _)) => Value::I16(l ^ r, span),
            (Value::I32(l, _), Value::I32(r, _)) => Value::I32(l ^ r, span),
            (Value::I64(l, _), Value::I64(r, _)) => Value::I64(l ^ r, span),
            (Value::I128(l, _), Value::I128(r, _)) => Value::I128(l ^ r, span),
            (Value::U8(l, _), Value::U8(r, _)) => Value::U8(l ^ r, span),
            (Value::U16(l, _), Value::U16(r, _)) => Value::U16(l ^ r, span),
            (Value::U32(l, _), Value::U32(r, _)) => Value::U32(l ^ r, span),
            (Value::U64(l, _), Value::U64(r, _)) => Value::U64(l ^ r, span),
            (Value::U128(l, _), Value::U128(r, _)) => Value::U128(l ^ r, span),
            _ => unreached(),
        }
    }

    /// The negation of a boolean, or of an integer bit by bit. The result stands where
    /// the operand stood.
    pub fn not(self) -> (v: Value)
        requires
            self is Boolean || self.integer_type() is Some,
        ensures
            v == self.complement(),
            self.integer_type() is Some ==> v == Value::integer(
                self.integer_type().unwrap(),
                self.integer_type().unwrap().highest() + self.integer_type().unwrap().lowest()
                    - self.int_value(),
                self.location(),
            ),
    {
        proof {
            if self.integer_type() is Some {
                lemma_complement(self);
            }
        }
        match self {
            Value::Boolean(v, span) => Value::Boolean(!v, span),
            Value::I8(v, span) => Value::I8(!v, span),
            Value::I16(v, span) => Value::I16(!v, span),
            Value::I32(v, span) => Value::I32(!v, span),
            Value::I64(v, span) => Value::I64(!v, span),
            Value::I128(v, span) => Value::I128(!v, span),
            Value::U8(v, span) => Value::U8(!v, span),
            Value::U16(v, span) => Value::U16(!v, span),
            Value::U32(v, span) => Value::U32(!v, span),
            Value::U64(v, span) => Value::U64(!v, span),
            Value::U128(v, span) => Value::U128(!v, span),
            _ => unreached(),
        }
    }
}

/// The negation of an integer bit by bit holds the number that lies as far below
/// the greatest number of the kind as the integer lies above the least.
pub proof fn lemma_complement(value: Value)
    requires
        value.integer_type() is Some,
    ensures
        value.complement() == Value::integer(
            value.integer_type().unwrap(),
            value.integer_type().unwrap().highest() + value.integer_type().unwrap().lowest()
                - value.int_value(),
            value.location(),
        ),
{
    match value {
        Value::I8(v, _) => {
            assert(!v == -1 - v) by (bit_vector);
        },
        Value::I16(v, _) => {
            assert(!v == -1 - v) by (bit_vector);
        },
        Value::I32(v, _) => {
            assert(!v == -1 - v) by (bit_vector);
        },
        Value::I64(v, _) => {
            assert(!v == -1 - v) by (bit_vector);
        },
        Value::I128(v, _) => {
            assert(!v == -1 - v) by (bit_vector);
        },
        Value::U8(v, _) => {
            assert(!v == 0xff - v) by (bit_vector);
        },
        Value::U16(v, _) => {
            assert(!v == 0xffff - v) by (bit_vector);
        },
        Value::U32(v, _) => {
            assert(!v == 0xffff_ffff - v) by (bit_vector);
        },
        Value::U64(v, _) => {
            assert(!v == 0xffff_ffff_ffff_ffff - v) by (bit_vector);
        },
        Value::U128(v, _) => {
            assert(!v == 0xffff_ffff_ffff_ffff_ffff_ffff_ffff_ffff - v) by (bit_vector);
        },
        _ => {},
    }
}

} // verus!
