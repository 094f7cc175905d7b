//! Shifts of constant values.
//!
//! A shift moves the bits of an integer of any kind by an amount that is an unsigned
//! integer of at most 32 bits. A checked shift returns the diagnostic of an overflow
//! for an amount that is not below the width of the kind, and for no other reason; a
//! wrapped shift takes the amount modulo the width.

use crate::arithmetic::{checked, overflow};
use crate::error::ValueError;
use crate::span::Span;
use crate::types::{
    lemma_wrap_congruent, lemma_wrap_held, lemma_wrap_scaled, lemma_wrap_widened, IntegerType,
};
use crate::value::Value;
use vstd::arithmetic::div_mod::{
    lemma_fundamental_div_mod, lemma_fundamental_div_mod_converse_div, lemma_mod_bound,
};
use vstd::arithmetic::power2::{lemma2_to64, lemma_pow2_pos, lemma_pow2_unfold, pow2};
use vstd::prelude::*;

verus! {

impl Value {
    /// The integer with its bits moved up by `amount` places, for an `amount` below the
    /// width of its kind: the bits that leave the kind are lost, and zeros come in.
    pub open spec fn shifted_left(self, amount: u32, span: Span) -> Value {
        match self {
            Value::I8(v, _) => Value::I8(v << amount, span),
            Value::I16(v, _) => Value::I16(v << amount, span),
            Value::I32(v, _) => Value::I32(v << amount, span),
            Value::I64(v, _) => Value::I64(v << amount, span),
            Value::I128(v, _) => Value::I128(v << amount, span),
            Value::U8(v, _) => Value::U8(v << amount, span),
            Value::U16(v, _) => Value::U16(v << amount, span),
            Value::U32(v, _) => Value::U32(v << amount, span),
            Value::U64(v, _) => Value::U64(v << amount, span),
            Value::U128(v, _) => Value::U128(v << amount, span),
            _ => self,
        }
    }

    /// The integer with its bits moved down by `amount` places, for an `amount` below
    /// the width of its kind: the lowest bits are lost, and copies of the sign come in.
    pub open spec fn shifted_right(self, amount: u32, span: Span) -> Value {
        match self {
            Value::I8(v, _) => Value::I8(v >> amount, span),
            Value::I16(v, _) => Value::I16(v >> amount, span),
            Value::I32(v, _) => Value::I32(v >> amount, span),
            Value::I64(v, _) => Value::I64(v >> amount, span),
            Value::I128(v, _) => Value::I128(v >> amount, span),
            Value::U8(v, _) => Value::U8(v >> amount, span),
            Value::U16(v, _) => Value::U16(v >> amount, span),
            Value::U32(v, _) => Value::U32(v >> amount, span),
            Value::U64(v, _) => Value::U64(v >> amount, span),
            Value::U128(v, _) => Value::U128(v >> amount, span),
            _ => self,
        }
    }

    /// The integer shifted left by an amount below the width of its kind; the
    /// diagnostic for any other amount. Bits that are shifted out of the kind are lost
    /// without a diagnostic.
    pub fn shl(self, other: Value, span: Span) -> (r: Result<Value, ValueError>)
        requires
            self.integer_type() is Some,
            other.is_amount(),
        ensures
            checked(
                r,
                other.int_value() < self.integer_type().unwrap().width(),
                self.integer_type().unwrap(),
                self.integer_type().unwrap().wrap(
                    self.int_value() * pow2(other.int_value() as nat),
                ),
                span,
                overflow(self, "<<"@, other, span),
            ),
    {
        let amount = other.amount();
        proof {
            let kind = self.integer_type().unwrap();
            let product = self.int_value() * pow2(amount as nat);
            lemma_wrap_congruent(kind, product, product, 0);
            if amount < kind.width() {
                lemma_shifted_left(self, amount, span);
            }
        }
        let outcome = match &self {
            Value::I8(v, _) => if amount < 8 {
                Some(Value::I8(*v << amount, span))
            } else {
                None
            },
            Value::I16(v, _) => if amount < 16 {
                Some(Value::I16(*v << amount, span))
            } else {
                None
            },
            Value::I32(v, _) => if amount < 32 {
                Some(Value::I32(*v << amount, span))
            } else {
                None
            },
            Value::I64(v, _) => if amount < 64 {
                Some(Value::I64(*v << amount, span))
            } else {
                None
            },
            Value::I128(v, _) => if amount < 128 {
                Some(Value::I128(*v << amount, span))
            } else {
                None
            },
            Value::U8(v, _) => if amount < 8 {
                Some(Value::U8(*v << amount, span))
            } else {
                None
            },
            Value::U16(v, _) => if amount < 16 {
                Some(Value::U16(*v << amount, span))
            } else {
                None
            },
            Value::U32(v, _) => if amount < 32 {
                Some(Value::U32(*v << amount, span))
            } else {
                None
            },
            Value::U64(v, _) => if amount < 64 {
                Some(Value::U64(*v << amount, span))
            } else {
                None
            },
            Value::U128(v, _) => if amount < 128 {
                Some(Value::U128(*v << amount, span))
            } else {
                None
            },
            _ => unreached(),
        };
        match outcome {
            Some(v) => Ok(v),
            None => Err(self.overflow_error("<<", &other, span)),
        }
    }

    /// The integer shifted left by the amount modulo the width of its kind.
    pub fn shl_wrapped(self, other: Value, span: Span) -> (v: Value)
        requires
            self.integer_type() is Some,
            other.is_amount(),
        ensures
            v == Value::integer(
                self.integer_type().unwrap(),
                self.integer_type().unwrap().wrap(
                    self.int_value() * pow2(
                        (other.int_value() % self.integer_type().unwrap().width() as int) as nat,
                    ),
                ),
                span,
            ),
    {
        let amount = other.amount();
        proof {
            let kind = self.integer_type().unwrap();
            lemma_shifted_left(self, (amount as int % kind.width() as int) as u32, span);
        }
        match self {
            Value::I8(v, _) => Value::I8(v.wrapping_shl(amount), span),
            Value::I16(v, _) => Value::I16(v.wrapping_shl(amount), span),
            Value::I32(v, _) => Value::I32(v.wrapping_shl(amount), span),
            Value::I64(v, _) => Value::I64(v.wrapping_shl(amount), span),
            Value::I128(v, _) => Value::I128(v.wrapping_shl(amount), span),
            Value::U8(v, _) => Value::U8(v.wrapping_shl(amount), span),
            Value::U16(v, _) => Value::U16(v.wrapping_shl(amount), span),
            Value::U32(v, _) => Value::U32(v.wrapping_shl(amount), span),
            Value::U64(v, _) => Value::U64(v.wrapping_shl(amount), span),
            Value::U128(v, _) => Value::U128(v.wrapping_shl(amount), span),
            _ => unreached(),
        }
    }

    /// The integer shifted right by an amount below the width of its kind; the
    /// diagnostic for any other amount.
    pub fn shr(self, other: Value, span: Span) -> (r: Result<Value, ValueError>)
        requires
            self.integer_type() is Some,
            other.is_amount(),
        ensures
            checked(
                r,
                other.int_value() < self.integer_type().unwrap().width(),
                self.integer_type().unwrap(),
                self.int_value() / (pow2(other.int_value() as nat) as int),
                span,
                overflow(self, ">>"@, other, span),
            ),
    {
        let amount = other.amount();
        proof {
            lemma_quotient_is_held(self.integer_type().unwrap(), self.int_value(), amount as nat);
            if amount < self.integer_type().unwrap().width() {
                lemma_shifted_right(self, amount, span);
            }
        }
        let outcome = match &self {
            Value::I8(v, _) => if amount < 8 {
                Some(Value::I8(*v >> amount, span))
            } else {
                None
            },
            Value::I16(v, _) => if amount < 16 {
                Some(Value::I16(*v >> amount, span))
            } else {
                None
            },
            Value::I32(v, _) => if amount < 32 {
                Some(Value::I32(*v >> amount, span))
            } else {
                None
            },
            Value::I64(v, _) => if amount < 64 {
                Some(Value::I64(*v >> amount, span))
            } else {
                None
            },
            Value::I128(v, _) => if amount < 128 {
                Some(Value::I128(*v >> amount, span))
            } else {
                None
            },
            Value::U8(v, _) => if amount < 8 {
                Some(Value::U8(*v >> amount, span))
            } else {
                None
            },
            Value::U16(v, _) => if amount < 16 {
                Some(Value::U16(*v >> amount, span))
            } else {
                None
            },
            Value::U32(v, _) => if amount < 32 {
                Some(Value::U32(*v >> amount, span))
            } else {
                None
            },
            Value::U64(v, _) => if amount < 64 {
                Some(Value::U64(*v >> amount, span))
            } else {
                None
            },
            Value::U128(v, _) => if amount < 128 {
                Some(Value::U128(*v >> amount, span))
            } else {
                None
            },
            _ => unreached(),
        };
        match outcome {
            Some(v) => Ok(v),
            None => Err(self.overflow_error(">>", &other, span)),
        }
    }

    /// The integer shifted right by the amount modulo the width of its kind.
    pub fn shr_wrapped(self, other: Value, span: Span) -> (v: Value)
        requires
            self.integer_type() is Some,
            other.is_amount(),
        ensures
            v == Value::integer(
                self.integer_type().unwrap(),
                self.int_value() / (pow2(
                    (other.int_value() % self.integer_type().unwrap().width() as int) as nat,
                ) as int),
                span,
            ),
    {
        let amount = other.amount();
        proof {
            let kind = self.integer_type().unwrap();
            lemma_shifted_right(self, (amount as int % kind.width() as int) as u32, span);
        }
        match self {
            Value::I8(v, _) => Value::I8(v.wrapping_shr(amount), span),
            Value::I16(v, _) => Value::I16(v.wrapping_shr(amount), span),
            Value::I32(v, _) => Value::I32(v.wrapping_shr(amount), span),
            Value::I64(v, _) => Value::I64(v.wrapping_shr(amount), span),
            Value::I128(v, _) => Value::I128(v.wrapping_shr(amount), span),
            Value::U8(v, _) => Value::U8(v.wrapping_shr(amount), span),
            Value::U16(v, _) => Value::U16(v.wrapping_shr(amount), span),
            Value::U32(v, _) => Value::U32(v.wrapping_shr(amount), span),
            Value::U64(v, _) => Value::U64(v.wrapping_shr(amount), span),
            Value::U128(v, _) => Value::U128(v.wrapping_shr(amount), span),
            _ => unreached(),
        }
    }
}

/// One step of a shift of an unsigned integer of 128 bits: a shift by nothing
/// changes nothing, a shift by one place further is one more shift by one place, a
/// shift up by one place doubles and wraps, and a shift down by one place halves.
proof fn lemma_u128_shift_step(v: u128, s: u32)
    requires
        s < 127,
    ensures
        v << 0u32 == v,
        v >> 0u32 == v,
        v << ((s + 1) as u32) == (v << s) << 1u32,
        v >> ((s + 1) as u32) == (v >> s) >> 1u32,
        (v << 1u32) as int == IntegerType::U128.wrap(2 * v),
        v - 2 * (v >> 1u32) == 0 || v - 2 * (v >> 1u32) == 1,
{
    assert({
        &&& v << 0u32 == v
        &&& v >> 0u32 == v
        &&& (v << 1u32) as int == (2 * v) % 0x1_0000_0000_0000_0000_0000_0000_0000_0000int
        &&& (v - 2 * (v >> 1u32) == 0 || v - 2 * (v >> 1u32) == 1)
    }) by (bit_vector);
    assert(v << ((s + 1) as u32) == (v << s) << 1u32) by (bit_vector)
        requires
            s < 127,
    ;
    assert(v >> ((s + 1) as u32) == (v >> s) >> 1u32) by (bit_vector)
        requires
            s < 127,
    ;
}

/// One step of a shift of a signed integer of 128 bits.
proof fn lemma_i128_shift_step(v: i128, s: u32)
    requires
        s < 127,
    ensures
        v << 0u32 == v,
        v >> 0u32 == v,
        v << ((s + 1) as u32) == (v << s) << 1u32,
        v >> ((s + 1) as u32) == (v >> s) >> 1u32,
        (v << 1u32) as int == IntegerType::I128.wrap(2 * v),
        v - 2 * (v >> 1u32) == 0 || v - 2 * (v >> 1u32) == 1,
{
    assert({
        &&& v << 0u32 == v
        &&& v >> 0u32 == v
        &&& (v << 1u32) as int == (2 * v + 0x8000_0000_0000_0000_0000_0000_0000_0000)
            % 0x1_0000_0000_0000_0000_0000_0000_0000_0000int
            - 0x8000_0000_0000_0000_0000_0000_0000_0000
        &&& (v - 2 * (v >> 1u32) == 0 || v - 2 * (v >> 1u32) == 1)
    }) by (bit_vector);
    assert(v << ((s + 1) as u32) == (v << s) << 1u32) by (bit_vector)
        requires
            s < 127,
    ;
    assert(v >> ((s + 1) as u32) == (v >> s) >> 1u32) by (bit_vector)
        requires
            s < 127,
    ;
}

/// The half of a quotient by a positive number, rounded down, is the quotient by
/// twice that number.
proof fn lemma_half_of_quotient(x: int, d: int, half: int)
    requires
        d > 0,
        (x / d) - 2 * half == 0 || (x / d) - 2 * half == 1,
    ensures
        half == x / (2 * d),
{
    let t = x / d;
    let r = x % d;
    lemma_fundamental_div_mod(x, d);
    lemma_mod_bound(x, d);
    let b = t - 2 * half;
    assert(x == half * (2 * d) + (d * b + r)) by (nonlinear_arith)
        requires
            x == d * t + r,
            t == 2 * half + b,
    ;
    assert(0 <= d * b + r < 2 * d) by (nonlinear_arith)
        requires
            0 <= r < d,
            b == 0 || b == 1,
    ;
    lemma_fundamental_div_mod_converse_div(x, 2 * d, half, d * b + r);
}

/// A shift of an unsigned integer of 128 bits up multiplies by a power of two and
/// wraps; a shift down divides by a power of two and rounds down.
proof fn lemma_u128_shifts(v: u128, s: u32)
    requires
        s < 128,
    ensures
        (v << s) as int == IntegerType::U128.wrap(v * pow2(s as nat)),
        (v >> s) as int == (v as int) / (pow2(s as nat) as int),
    decreases s,
{
    lemma2_to64();
    if s == 0 {
        lemma_u128_shift_step(v, 0);
        assert(v * pow2(0) == v);
        lemma_wrap_held(IntegerType::U128, v as int);
    } else {
        let before = (s - 1) as u32;
        lemma_u128_shifts(v, before);
        lemma_u128_shift_step(v, before);
        lemma_u128_shift_step(v << before, 0);
        lemma_u128_shift_step(v >> before, 0);
        lemma_pow2_unfold(s as nat);
        lemma_pow2_pos(before as nat);
        let p = pow2(before as nat) as int;
        lemma_wrap_scaled(IntegerType::U128, v * p, 2);
        assert(2 * (v * p) == v * (2 * p)) by (nonlinear_arith);
        lemma_half_of_quotient(v as int, p, (v >> s) as int);
    }
}

/// A shift of a signed integer of 128 bits up multiplies by a power of two and
/// wraps; a shift down divides by a power of two and rounds down.
proof fn lemma_i128_shifts(v: i128, s: u32)
    requires
        s < 128,
    ensures
        (v << s) as int == IntegerType::I128.wrap(v * pow2(s as nat)),
        (v >> s) as int == (v as int) / (pow2(s as nat) as int),
    decreases s,
{
    lemma2_to64();
    if s == 0 {
        lemma_i128_shift_step(v, 0);
        assert(v * pow2(0) == v);
        lemma_wrap_held(IntegerType::I128, v as int);
    } else {
        let before = (s - 1) as u32;
        lemma_i128_shifts(v, before);
        lemma_i128_shift_step(v, before);
        lemma_i128_shift_step(v << before, 0);
        lemma_i128_shift_step(v >> before, 0);
        lemma_pow2_unfold(s as nat);
        lemma_pow2_pos(before as nat);
        let p = pow2(before as nat) as int;
        lemma_wrap_scaled(IntegerType::I128, v * p, 2);
        assert(2 * (v * p) == v * (2 * p)) by (nonlinear_arith);
        lemma_half_of_quotient(v as int, p, (v >> s) as int);
    }
}

/// The shifts of an integer of kind `i8` are those of the same number in 128 bits,
/// cut to the kind.
proof fn lemma_i8_shifts(v: i8, s: u32, w: i128)
    requires
        s < 8,
    ensures
        v << s == ((v as i128) << s) as i8,
        (v >> s) as i128 == (v as i128) >> s,
        (w as i8) as int == (w + 0x80) % 0x100 - 0x80,
{
    assert(v << s == ((v as i128) << s) as i8 && (v >> s) as i128 == (v as i128) >> s)
        by (bit_vector)
        requires
            s < 8,
    ;
    assert((w as i8) as int == (w + 0x80) % 0x100 - 0x80) by (bit_vector);
}

/// The shifts of an integer of kind `i16` are those of the same number in 128 bits,
/// cut to the kind.
proof fn lemma_i16_shifts(v: i16, s: u32, w: i128)
    requires
        s < 16,
    ensures
        v << s == ((v as i128) << s) as i16,
        (v >> s) as i128 == (v as i128) >> s,
        (w as i16) as int == (w + 0x8000) % 0x1_0000 - 0x8000,
{
    assert(v << s == ((v as i128) << s) as i16 && (v >> s) as i128 == (v as i128) >> s)
        by (bit_vector)
        requires
            s < 16,
    ;
    assert((w as i16) as int == (w + 0x8000) % 0x1_0000 - 0x8000) by (bit_vector);
}

/// The shifts of an integer of kind `i32` are those of the same number in 128 bits,
/// cut to the kind.
proof fn lemma_i32_shifts(v: i32, s: u32, w: i128)
    requires
        s < 32,
    ensures
        v << s == ((v as i128) << s) as i32,
        (v >> s) as i128 == (v as i128) >> s,
        (w as i32) as int == (w + 0x8000_0000) % 0x1_0000_0000 - 0x8000_0000,
{
    assert(v << s == ((v as i128) << s) as i32 && (v >> s) as i128 == (v as i128) >> s)
        by (bit_vector)
        requires
            s < 32,
    ;
    assert((w as i32) as int == (w + 0x8000_0000) % 0x1_0000_0000 - 0x8000_0000) by (bit_vector);
}

/// The shifts of an integer of kind `i64` are those of the same number in 128 bits,
/// cut to the kind.
proof fn lemma_i64_shifts(v: i64, s: u32, w: i128)
    requires
        s < 64,
    ensures
        v << s == ((v as i128) << s) as i64,
        (v >> s) as i128 == (v as i128) >> s,
        (w as i64) as int == (w + 0x8000_0000_0000_0000) % 0x1_0000_0000_0000_0000
            - 0x8000_0000_0000_0000,
{
    assert(v << s == ((v as i128) << s) as i64 && (v >> s) as i128 == (v as i128) >> s)
        by (bit_vector)
        requires
            s < 64,
    ;
    assert((w as i64) as int == (w + 0x8000_0000_0000_0000) % 0x1_0000_0000_0000_0000
        - 0x8000_0000_0000_0000) by (bit_vector);
}

/// The shifts of an integer of kind `u8` are those of the same number in 128 bits,
/// cut to the kind.
proof fn lemma_u8_shifts(v: u8, s: u32, w: u128)
    requires
        s < 8,
    ensures
        v << s == ((v as u128) << s) as u8,
        (v >> s) as u128 == (v as u128) >> s,
        (w as u8) as int == w % 0x100,
{
    assert(v << s == ((v as u128) << s) as u8 && (v >> s) as u128 == (v as u128) >> s)
        by (bit_vector)
        requires
            s < 8,
    ;
    assert((w as u8) as int == w % 0x100) by (bit_vector);
}

/// The shifts of an integer of kind `u16` are those of the same number in 128 bits,
/// cut to the kind.
proof fn lemma_u16_shifts(v: u16, s: u32, w: u128)
    requires
        s < 16,
    ensures
        v << s == ((v as u128) << s) as u16,
        (v >> s) as u128 == (v as u128) >> s,
        (w as u16) as int == w % 0x1_0000,
{
    assert(v << s == ((v as u128) << s) as u16 && (v >> s) as u128 == (v as u128) >> s)
        by (bit_vector)
        requires
            s < 16,
    ;
    assert((w as u16) as int == w % 0x1_0000) by (bit_vector);
}

/// The shifts of an integer of kind `u32` are those of the same number in 128 bits,
/// cut to the kind.
proof fn lemma_u32_shifts(v: u32, s: u32, w: u128)
    requires
        s < 32,
    ensures
        v << s == ((v as u128) << s) as u32,
        (v >> s) as u128 == (v as u128) >> s,
        (w as u32) as int == w % 0x1_0000_0000,
{
    assert(v << s == ((v as u128) << s) as u32 && (v >> s) as u128 == (v as u128) >> s)
        by (bit_vector)
        requires
            s < 32,
    ;
    assert((w as u32) as int == w % 0x1_0000_0000) by (bit_vector);
}

/// The shifts of an integer of kind `u64` are those of the same number in 128 bits,
/// cut to the kind.
proof fn lemma_u64_shifts(v: u64, s: u32, w: u128)
    requires
        s < 64,
    ensures
        v << s == ((v as u128) << s) as u64,
        (v >> s) as u128 == (v as u128) >> s,
        (w as u64) as int == w % 0x1_0000_0000_0000_0000,
{
    assert(v << s == ((v as u128) << s) as u64 && (v >> s) as u128 == (v as u128) >> s)
        by (bit_vector)
        requires
            s < 64,
    ;
    assert((w as u64) as int == w % 0x1_0000_0000_0000_0000) by (bit_vector);
}

/// The quotient of a number of a kind by a power of two, rounded down, is of the
/// kind.
pub proof fn lemma_quotient_is_held(kind: IntegerType, x: int, e: nat)
    requires
        kind.holds(x),
    ensures
        kind.holds(x / (pow2(e) as int)),
{
    let p = pow2(e) as int;
    lemma_pow2_pos(e);
    lemma_fundamental_div_mod(x, p);
    lemma_mod_bound(x, p);
    let q = x / p;
    let r = x % p;
    assert((x >= 0 ==> 0 <= q <= x) && (x < 0 ==> x <= q < 0)) by (nonlinear_arith)
        requires
            x == p * q + r,
            0 <= r < p,
    ;
}

/// A shift up by an amount below the width of the kind multiplies by two to the
/// power of the amount and wraps the product into the kind.
pub proof fn lemma_shifted_left(value: Value, amount: u32, span: Span)
    requires
        value.integer_type() is Some,
        amount < value.integer_type().unwrap().width(),
    ensures
        value.shifted_left(amount, span) == Value::integer(
            value.integer_type().unwrap(),
            value.integer_type().unwrap().wrap(value.int_value() * pow2(amount as nat)),
            span,
        ),
{
    let kind = value.integer_type().unwrap();
    match value {
        Value::I8(v, _) => {
            let w = (v as i128) << amount;
            lemma_i8_shifts(v, amount, w);
            lemma_i128_shifts(v as i128, amount);
            lemma_wrap_widened(kind, v * pow2(amount as nat));
        },
        Value::I16(v, _) => {
            let w = (v as i128) << amount;
            lemma_i16_shifts(v, amount, w);
            lemma_i128_shifts(v as i128, amount);
            lemma_wrap_widened(kind, v * pow2(amount as nat));
        },
        Value::I32(v, _) => {
            let w = (v as i128) << amount;
            lemma_i32_shifts(v, amount, w);
            lemma_i128_shifts(v as i128, amount);
            lemma_wrap_widened(kind, v * pow2(amount as nat));
        },
        Value::I64(v, _) => {
            let w = (v as i128) << amount;
            lemma_i64_shifts(v, amount, w);
            lemma_i128_shifts(v as i128, amount);
            lemma_wrap_widened(kind, v * pow2(amount as nat));
        },
        Value::U8(v, _) => {
            let w = (v as u128) << amount;
            lemma_u8_shifts(v, amount, w);
            lemma_u128_shifts(v as u128, amount);
            lemma_wrap_widened(kind, v * pow2(amount as nat));
        },
        Value::U16(v, _) => {
            let w = (v as u128) << amount;
            lemma_u16_shifts(v, amount, w);
            lemma_u128_shifts(v as u128, amount);
            lemma_wrap_widened(kind, v * pow2(amount as nat));
        },
        Value::U32(v, _) => {
            let w = (v as u128) << amount;
            lemma_u32_shifts(v, amount, w);
            lemma_u128_shifts(v as u128, amount);
            lemma_wrap_widened(kind, v * pow2(amount as nat));
        },
        Value::U64(v, _) => {
            let w = (v as u128) << amount;
            lemma_u64_shifts(v, amount, w);
            lemma_u128_shifts(v as u128, amount);
            lemma_wrap_widened(kind, v * pow2(amount as nat));
        },
        Value::I128(v, _) => {
            lemma_i128_shifts(v, amount);
        },
        Value::U128(v, _) => {
            lemma_u128_shifts(v, amount);
        },
        _ => {},
    }
}

/// A shift down by an amount below the width of the kind divides by two to the
/// power of the amount and rounds down.
pub proof fn lemma_shifted_right(value: Value, amount: u32, span: Span)
    requires
        value.integer_type() is Some,
        amount < value.integer_type().unwrap().width(),
    ensures
        value.shifted_right(amount, span) == Value::integer(
            value.integer_type().unwrap(),
            value.int_value() / (pow2(amount as nat) as int),
            span,
        ),
{
    match value {
        Value::I8(v, _) => {
            lemma_i8_shifts(v, amount, 0);
            lemma_i128_shifts(v as i128, amount);
        },
        Value::I16(v, _) => {
            lemma_i16_shifts(v, amount, 0);
            lemma_i128_shifts(v as i128, amount);
        },
        Value::I32(v, _) => {
            lemma_i32_shifts(v, amount, 0);
            lemma_i128_shifts(v as i128, amount);
        },
        Value::I64(v, _) => {
            lemma_i64_shifts(v, amount, 0);
            lemma_i128_shifts(v as i128, amount);
        },
        Value::U8(v, _) => {
            lemma_u8_shifts(v, amount, 0);
            lemma_u128_shifts(v as u128, amount);
        },
        Value::U16(v, _) => {
            lemma_u16_shifts(v, amount, 0);
            lemma_u128_shifts(v as u128, amount);
        },
        Value::U32(v, _) => {
            lemma_u32_shifts(v, amount, 0);
            lemma_u128_shifts(v as u128, amount);
        },
        Value::U64(v, _) => {
            lemma_u64_shifts(v, amount, 0);
            lemma_u128_shifts(v as u128, amount);
        },
        Value::I128(v, _) => {
            lemma_i128_shifts(v, amount);
        },
        Value::U128(v, _) => {
            lemma_u128_shifts(v, amount);
        },
        _ => {},
    }
}

} // verus!
