//! Powers of constant values.
//!
//! A checked power is taken by multiplying step by step, which ends as soon as a
//! product leaves the kind: from there on the powers only grow. A wrapped power is
//! taken by squaring and multiplying remainders modulo the modulus of the kind.

use crate::arithmetic::{checked, overflow};
use crate::error::ValueError;
use crate::span::Span;
use crate::types::{lemma_wrap_congruent, lemma_wrap_remainder, IntegerType};
use crate::value::Value;
use vstd::arithmetic::div_mod::{
    lemma_fundamental_div_mod_converse_mod, lemma_mul_mod_noop_general, lemma_small_mod,
};
use vstd::arithmetic::power::{
    lemma0_pow, lemma_pow0, lemma_pow1, lemma_pow_mod_noop, lemma_pow_multiplies,
    lemma_square_is_pow2, pow,
};
use vstd::prelude::*;

verus! {

/// The absolute value of `x`.
pub open spec fn magnitude(x: int) -> int {
    if x < 0 {
        -x
    } else {
        x
    }
}

/// A power of one or of minus one.
proof fn lemma_pow_unit(e: nat)
    ensures
        pow(1, e) == 1,
        pow(-1, e) == if e % 2 == 0 {
            1int
        } else {
            -1int
        },
    decreases e,
{
    reveal(pow);
    if e > 0 {
        lemma_pow_unit((e - 1) as nat);
    }
}

/// The powers of a number that is at least two in absolute value at least double
/// with every step of the exponent.
proof fn lemma_pow_doubles(a: int, i: nat, e: nat)
    requires
        magnitude(a) >= 2,
        i <= e,
    ensures
        magnitude(pow(a, i)) >= 1,
        magnitude(pow(a, e)) >= magnitude(pow(a, i)),
        e > i ==> magnitude(pow(a, e)) >= 2 * magnitude(pow(a, i)),
    decreases e,
{
    reveal(pow);
    if i > 0 {
        lemma_pow_doubles(a, 0, (i - 1) as nat);
        let y = pow(a, (i - 1) as nat);
        assert(magnitude(a * y) >= 2 * magnitude(y)) by (nonlinear_arith)
            requires
                magnitude(a) >= 2,
        ;
    }
    if e > i {
        lemma_pow_doubles(a, i, (e - 1) as nat);
        let x = pow(a, (e - 1) as nat);
        assert(magnitude(a * x) >= 2 * magnitude(x)) by (nonlinear_arith)
            requires
                magnitude(a) >= 2,
        ;
    }
}

/// The power of a signed number, if the kind holds it.
fn checked_power_signed(kind: IntegerType, base: i128, exponent: u32) -> (r: Option<i128>)
    requires
        kind.signed(),
        kind.holds(base as int),
    ensures
        match r {
            Some(x) => x == pow(base as int, exponent as nat) && kind.holds(x as int),
            None => !kind.holds(pow(base as int, exponent as nat)),
        },
{
    proof {
        lemma_pow0(base as int);
        lemma_pow_unit(exponent as nat);
    }
    if exponent == 0 {
        return Some(1);
    }
    if base == 0 {
        proof {
            lemma0_pow(exponent as nat);
        }
        return Some(0);
    }
    if base == 1 {
        return Some(1);
    }
    if base == -1 {
        return if exponent % 2 == 0 {
            Some(1)
        } else {
            Some(-1)
        };
    }
    proof {
        lemma_pow1(base as int);
    }
    let mut power: i128 = base;
    let mut done: u32 = 1;
    while done < exponent
        invariant
            1 <= done <= exponent,
            kind.signed(),
            magnitude(base as int) >= 2,
            kind.holds(base as int),
            kind.holds(power as int),
            power == pow(base as int, done as nat),
        decreases exponent - done,
    {
        proof {
            reveal(pow);
            lemma_pow_doubles(base as int, (done + 1) as nat, exponent as nat);
            assert(pow(base as int, (done + 1) as nat) == base * power);
        }
        let next = match power.checked_mul(base) {
            Some(next) => next,
            None => {
                assert(power * base == base * power) by (nonlinear_arith);
                return None;
            },
        };
        assert(power * base == base * power) by (nonlinear_arith);
        if !kind.holds_signed(next) {
            return None;
        }
        power = next;
        done = done + 1;
    }
    Some(power)
}

/// The power of an unsigned number, if the kind holds it.
fn checked_power_unsigned(kind: IntegerType, base: u128, exponent: u32) -> (r: Option<u128>)
    requires
        !kind.signed(),
        kind.holds(base as int),
    ensures
        match r {
            Some(x) => x == pow(base as int, exponent as nat) && kind.holds(x as int),
            None => !kind.holds(pow(base as int, exponent as nat)),
        },
{
    proof {
        lemma_pow0(base as int);
        lemma_pow_unit(exponent as nat);
    }
    if exponent == 0 {
        return Some(1);
    }
    if base == 0 {
        proof {
            lemma0_pow(exponent as nat);
        }
        return Some(0);
    }
    if base == 1 {
        return Some(1);
    }
    proof {
        lemma_pow1(base as int);
    }
    let mut power: u128 = base;
    let mut done: u32 = 1;
    while done < exponent
        invariant
            1 <= done <= exponent,
            !kind.signed(),
            base >= 2,
            kind.holds(base as int),
            kind.holds(power as int),
            power == pow(base as int, done as nat),
        decreases exponent - done,
    {
        proof {
            reveal(pow);
            lemma_pow_doubles(base as int, (done + 1) as nat, exponent as nat);
            assert(pow(base as int, (done + 1) as nat) == base * power);
        }
        let next = match power.checked_mul(base) {
            Some(next) => next,
            None => {
                assert(power * base == base * power) by (nonlinear_arith);
                return None;
            },
        };
        assert(power * base == base * power) by (nonlinear_arith);
        if !kind.holds_unsigned(next) {
            return None;
        }
        power = next;
        done = done + 1;
    }
    Some(power)
}

/// One step of the square-and-multiply scheme keeps the product of the running
/// result and the power that is still to be taken, modulo `m`.
proof fn lemma_power_step(r: int, s: int, n: nat, m: int)
    requires
        m > 0,
        n > 0,
    ensures
        ((if n % 2 == 1 {
            (r * s) % m
        } else {
            r
        }) * pow((s * s) % m, n / 2)) % m == (r * pow(s, n)) % m,
{
    let k = n / 2;
    let t = pow(s * s, k);
    lemma_square_is_pow2(s);
    lemma_pow_multiplies(s, 2, k);
    assert(pow(s, 2 * k) == t);
    lemma_pow_mod_noop(s * s, k, m);
    let u = pow((s * s) % m, k);
    assert(u % m == t % m);
    if n % 2 == 1 {
        assert(n == 2 * k + 1);
        reveal(pow);
        assert(pow(s, n) == s * pow(s, (n - 1) as nat));
        assert(r * pow(s, n) == (r * s) * t) by (nonlinear_arith)
            requires
                pow(s, n) == s * t,
        ;
        lemma_mul_mod_noop_general(r * s, u, m);
        lemma_mul_mod_noop_general(r * s, t, m);
    } else {
        assert(n == 2 * k);
        lemma_mul_mod_noop_general(r, u, m);
        lemma_mul_mod_noop_general(r, t, m);
    }
}

/// The product of two remainders modulo the modulus of the kind.
fn multiply_residues(kind: IntegerType, x: u128, y: u128) -> (r: u128)
    requires
        x < kind.modulus(),
        y < kind.modulus(),
    ensures
        r == (x * y) % kind.modulus(),
{
    match kind {
        IntegerType::U128 | IntegerType::I128 => x.wrapping_mul(y),
        _ => {
            assert(x * y <= 0xffff_ffff_ffff_ffff * 0xffff_ffff_ffff_ffff) by (nonlinear_arith)
                requires
                    x <= 0xffff_ffff_ffff_ffff,
                    y <= 0xffff_ffff_ffff_ffff,
            ;
            (x * y) % (kind.mask() + 1)
        },
    }
}

/// The remainder of a power modulo the modulus of the kind, by squaring and
/// multiplying remainders.
fn power_residue(kind: IntegerType, base: u128, exponent: u32) -> (r: u128)
    requires
        base < kind.modulus(),
    ensures
        r == pow(base as int, exponent as nat) % kind.modulus(),
{
    let mut result: u128 = 1;
    let mut square: u128 = base;
    let mut rest: u32 = exponent;
    proof {
        assert(1 * pow(base as int, exponent as nat) == pow(base as int, exponent as nat));
    }
    while rest > 0
        invariant
            result < kind.modulus(),
            square < kind.modulus(),
            (result * pow(square as int, rest as nat)) % kind.modulus() == pow(
                base as int,
                exponent as nat,
            ) % kind.modulus(),
        decreases rest,
    {
        proof {
            lemma_power_step(result as int, square as int, rest as nat, kind.modulus());
        }
        if rest % 2 == 1 {
            result = multiply_residues(kind, result, square);
        }
        square = multiply_residues(kind, square, square);
        rest = rest / 2;
    }
    proof {
        lemma_pow0(square as int);
        lemma_small_mod(result as nat, kind.modulus() as nat);
    }
    result
}

impl Value {
    /// The number that a signed integer holds.
    fn signed_number(&self) -> (x: i128)
        requires
            self.integer_type() is Some,
            self.integer_type().unwrap().signed(),
        ensures
            x == self.int_value(),
    {
        match self {
            Value::I8(v, _) => *v as i128,
            Value::I16(v, _) => *v as i128,
            Value::I32(v, _) => *v as i128,
            Value::I64(v, _) => *v as i128,
            Value::I128(v, _) => *v as i128,
            _ => unreached(),
        }
    }

    /// The number that an unsigned integer holds.
    fn unsigned_number(&self) -> (x: u128)
        requires
            self.integer_type() is Some,
            !self.integer_type().unwrap().signed(),
        ensures
            x == self.int_value(),
    {
        match self {
            Value::U8(v, _) => *v as u128,
            Value::U16(v, _) => *v as u128,
            Value::U32(v, _) => *v as u128,
            Value::U64(v, _) => *v as u128,
            Value::U128(v, _) => *v as u128,
            _ => unreached(),
        }
    }

    /// The integer of a signed kind that holds `x`.
    fn from_signed(kind: IntegerType, x: i128, span: Span) -> (v: Value)
        requires
            kind.signed(),
            kind.holds(x as int),
        ensures
            v == Value::integer(kind, x as int, span),
    {
        match kind {
            IntegerType::I8 => Value::I8(x as i8, span),
            IntegerType::I16 => Value::I16(x as i16, span),
            IntegerType::I32 => Value::I32(x as i32, span),
            IntegerType::I64 => Value::I64(x as i64, span),
            IntegerType::I128 => Value::I128(x as i128, span),
            _ => unreached(),
        }
    }

    /// The integer of an unsigned kind that holds `x`.
    fn from_unsigned(kind: IntegerType, x: u128, span: Span) -> (v: Value)
        requires
            !kind.signed(),
            kind.holds(x as int),
        ensures
            v == Value::integer(kind, x as int, span),
    {
        match kind {
            IntegerType::U8 => Value::U8(x as u8, span),
            IntegerType::U16 => Value::U16(x as u16, span),
            IntegerType::U32 => Value::U32(x as u32, span),
            IntegerType::U64 => Value::U64(x as u64, span),
            IntegerType::U128 => Value::U128(x as u128, span),
            _ => unreached(),
        }
    }

    /// The remainder of the integer modulo the modulus of its kind: the number that
    /// its bits spell when they are read without a sign.
    fn residue(&self) -> (r: u128)
        requires
            self.integer_type() is Some,
        ensures
            r == self.int_value() % self.integer_type().unwrap().modulus(),
    {
        let kind = match self.kind() {
            Some(kind) => kind,
            None => unreached(),
        };
        if kind.is_signed() {
            let x = self.signed_number();
            if x < 0 {
                let r = kind.mask() - (-(x + 1)) as u128;
                proof {
                    lemma_fundamental_div_mod_converse_mod(x as int, kind.modulus(), -1, r as int);
                }
                r
            } else {
                proof {
                    lemma_small_mod(x as nat, kind.modulus() as nat);
                }
                x as u128
            }
        } else {
            proof {
                lemma_small_mod(self.int_value() as nat, kind.modulus() as nat);
            }
            self.unsigned_number()
        }
    }

    /// The integer of kind `kind` whose bits spell `r` when they are read without a
    /// sign.
    fn from_residue(kind: IntegerType, r: u128, span: Span) -> (v: Value)
        requires
            r < kind.modulus(),
        ensures
            v == Value::integer(kind, kind.wrap(r as int), span),
    {
        proof {
            lemma_small_mod(r as nat, kind.modulus() as nat);
            lemma_wrap_remainder(kind, r as int);
        }
        if kind.is_signed() {
            if r <= kind.mask() / 2 {
                Value::from_signed(kind, r as i128, span)
            } else {
                Value::from_signed(kind, -((kind.mask() - r) as i128) - 1, span)
            }
        } else {
            Value::from_unsigned(kind, r, span)
        }
    }

    /// The integer raised to a power, or the diagnostic if its kind does not hold the
    /// power. The power with exponent zero is one.
    pub fn pow(self, other: Value, span: Span) -> (r: Result<Value, ValueError>)
        requires
            self.integer_type() is Some,
            other.is_amount(),
        ensures
            checked(
                r,
                true,
                self.integer_type().unwrap(),
                pow(self.int_value(), other.int_value() as nat),
                span,
                overflow(self, "**"@, other, span),
            ),
    {
        let kind = match self.kind() {
            Some(kind) => kind,
            None => unreached(),
        };
        let exponent = other.amount();
        let outcome = if kind.is_signed() {
            match checked_power_signed(kind, self.signed_number(), exponent) {
                Some(x) => Some(Value::from_signed(kind, x, span)),
                None => None,
            }
        } else {
            match checked_power_unsigned(kind, self.unsigned_number(), exponent) {
                Some(x) => Some(Value::from_unsigned(kind, x, span)),
                None => None,
            }
        };
        match outcome {
            Some(v) => Ok(v),
            None => Err(self.overflow_error("**", &other, span)),
        }
    }

    /// The integer raised to a power, wrapped into its kind. The power with exponent
    /// zero is one.
    pub fn pow_wrapped(self, other: Value, span: Span) -> (v: Value)
        requires
            self.integer_type() is Some,
            other.is_amount(),
        ensures
            v == Value::integer(
                self.integer_type().unwrap(),
                self.integer_type().unwrap().wrap(pow(self.int_value(), other.int_value() as nat)),
                span,
            ),
    {
        let kind = match self.kind() {
            Some(kind) => kind,
            None => unreached(),
        };
        let exponent = other.amount();
        let base = self.residue();
        let r = power_residue(kind, base, exponent);
        proof {
            let m = kind.modulus();
            let x = pow(self.int_value(), exponent as nat);
            lemma_pow_mod_noop(self.int_value(), exponent as nat, m);
            assert(r == x % m);
            assert(x == r + (x / m) * m) by (nonlinear_arith)
                requires
                    r == x % m,
                    m > 0,
            ;
            lemma_wrap_congruent(kind, x, r as int, x / m);
        }
        Value::from_residue(kind, r, span)
    }
}

} // verus!
