//! The types that a constant value can have.

use vstd::arithmetic::div_mod::{
    lemma_fundamental_div_mod, lemma_mod_multiples_vanish, lemma_small_mod,
};
use vstd::prelude::*;

verus! {

/// One of the ten integer kinds: five widths, each signed or unsigned.
#[derive(Clone, Copy, Debug, PartialEq, Eq, Structural, Hash)]
pub enum IntegerType {
    U8,
    U16,
    U32,
    U64,
    U128,
    I8,
    I16,
    I32,
    I64,
    I128,
}

impl IntegerType {
    /// Whether the kind has negative values.
    pub open spec fn signed(self) -> bool {
        match self {
            IntegerType::I8 | IntegerType::I16 | IntegerType::I32 | IntegerType::I64
            | IntegerType::I128 => true,
            _ => false,
        }
    }

    /// The number of bits of the kind.
    pub open spec fn width(self) -> nat {
        match self {
            IntegerType::U8 | IntegerType::I8 => 8,
            IntegerType::U16 | IntegerType::I16 => 16,
            IntegerType::U32 | IntegerType::I32 => 32,
            IntegerType::U64 | IntegerType::I64 => 64,
            IntegerType::U128 | IntegerType::I128 => 128,
        }
    }

    /// The number of values of the kind: two to the power of its width.
    pub open spec fn modulus(self) -> int {
        match self {
            IntegerType::U8 | IntegerType::I8 => 0x100,
            IntegerType::U16 | IntegerType::I16 => 0x1_0000,
            IntegerType::U32 | IntegerType::I32 => 0x1_0000_0000,
            IntegerType::U64 | IntegerType::I64 => 0x1_0000_0000_0000_0000,
            IntegerType::U128 | IntegerType::I128 => 0x1_0000_0000_0000_0000_0000_0000_0000_0000int,
        }
    }

    /// The least value of the kind.
    pub open spec fn lowest(self) -> int {
        if self.signed() {
            -(self.modulus() / 2)
        } else {
            0
        }
    }

    /// The greatest value of the kind.
    pub open spec fn highest(self) -> int {
        self.lowest() + self.modulus() - 1
    }

    /// Whether `x` is a value of the kind.
    pub open spec fn holds(self, x: int) -> bool {
        self.lowest() <= x <= self.highest()
    }

    /// The value of the kind that differs from `x` by a multiple of the modulus:
    /// what `x` becomes when only the kind's bits of it are kept.
    pub open spec fn wrap(self, x: int) -> int {
        (x - self.lowest()) % self.modulus() + self.lowest()
    }

    /// The keyword that names the kind.
    pub open spec fn keyword(self) -> Seq<char> {
        match self {
            IntegerType::U8 => "u8"@,
            IntegerType::U16 => "u16"@,
            IntegerType::U32 => "u32"@,
            IntegerType::U64 => "u64"@,
            IntegerType::U128 => "u128"@,
            IntegerType::I8 => "i8"@,
            IntegerType::I16 => "i16"@,
            IntegerType::I32 => "i32"@,
            IntegerType::I64 => "i64"@,
            IntegerType::I128 => "i128"@,
        }
    }

    /// Whether the kind has negative values.
    pub fn is_signed(&self) -> (b: bool)
        ensures
            b == self.signed(),
    {
        match self {
            IntegerType::I8 | IntegerType::I16 | IntegerType::I32 | IntegerType::I64
            | IntegerType::I128 => true,
            _ => false,
        }
    }

    /// The number of bits of the kind.
    pub fn bits(&self) -> (n: u32)
        ensures
            n == self.width(),
    {
        match self {
            IntegerType::U8 | IntegerType::I8 => 8,
            IntegerType::U16 | IntegerType::I16 => 16,
            IntegerType::U32 | IntegerType::I32 => 32,
            IntegerType::U64 | IntegerType::I64 => 64,
            IntegerType::U128 | IntegerType::I128 => 128,
        }
    }

    /// Whether `x` is a value of this signed kind.
    pub fn holds_signed(&self, x: i128) -> (b: bool)
        requires
            self.signed(),
        ensures
            b == self.holds(x as int),
    {
        match self {
            IntegerType::I8 => -0x80 <= x && x <= 0x7f,
            IntegerType::I16 => -0x8000 <= x && x <= 0x7fff,
            IntegerType::I32 => -0x8000_0000 <= x && x <= 0x7fff_ffff,
            IntegerType::I64 => -0x8000_0000_0000_0000 <= x && x <= 0x7fff_ffff_ffff_ffff,
            _ => true,
        }
    }

    /// Whether `x` is a value of this unsigned kind.
    pub fn holds_unsigned(&self, x: u128) -> (b: bool)
        requires
            !self.signed(),
        ensures
            b == self.holds(x as int),
    {
        match self {
            IntegerType::U8 => x <= 0xff,
            IntegerType::U16 => x <= 0xffff,
            IntegerType::U32 => x <= 0xffff_ffff,
            IntegerType::U64 => x <= 0xffff_ffff_ffff_ffff,
            _ => true,
        }
    }

    /// The greatest number that the bits of the kind spell when they are read without
    /// a sign: the modulus less one.
    pub fn mask(&self) -> (n: u128)
        ensures
            n == self.modulus() - 1,
    {
        match self {
            IntegerType::U8 | IntegerType::I8 => 0xff,
            IntegerType::U16 | IntegerType::I16 => 0xffff,
            IntegerType::U32 | IntegerType::I32 => 0xffff_ffff,
            IntegerType::U64 | IntegerType::I64 => 0xffff_ffff_ffff_ffff,
            IntegerType::U128 | IntegerType::I128 => 0xffff_ffff_ffff_ffff_ffff_ffff_ffff_ffff,
        }
    }

    /// The keyword that names the kind, such as `u8`.
    pub fn name(&self) -> (s: &'static str)
        ensures
            s@ == self.keyword(),
    {
        match self {
            IntegerType::U8 => "u8",
            IntegerType::U16 => "u16",
            IntegerType::U32 => "u32",
            IntegerType::U64 => "u64",
            IntegerType::U128 => "u128",
            IntegerType::I8 => "i8",
            IntegerType::I16 => "i16",
            IntegerType::I32 => "i32",
            IntegerType::I64 => "i64",
            IntegerType::I128 => "i128",
        }
    }
}

/// The type of a constant value.
#[derive(Clone, Copy, Debug, PartialEq, Eq, Structural, Hash)]
pub enum Type {
    Address,
    Boolean,
    Field,
    Group,
    Integer(IntegerType),
    Scalar,
    String,
}

/// A number of the kind wraps to itself.
pub proof fn lemma_wrap_held(kind: IntegerType, x: int)
    requires
        kind.holds(x),
    ensures
        kind.wrap(x) == x,
{
    lemma_small_mod((x - kind.lowest()) as nat, kind.modulus() as nat);
}

/// Two numbers that differ by a multiple of the modulus wrap to the same number,
/// and the wrapped number is of the kind.
pub proof fn lemma_wrap_congruent(kind: IntegerType, x: int, y: int, k: int)
    requires
        x == y + k * kind.modulus(),
    ensures
        kind.wrap(x) == kind.wrap(y),
        kind.holds(kind.wrap(x)),
{
    let m = kind.modulus();
    lemma_mod_multiples_vanish(k, y - kind.lowest(), m);
    assert(x - kind.lowest() == m * k + (y - kind.lowest())) by (nonlinear_arith)
        requires
            x == y + k * m,
    ;
}

/// The wrapped number by the remainder: `x % m` where the kind holds that, and
/// `x % m - m` in the upper half of a signed kind.
pub proof fn lemma_wrap_remainder(kind: IntegerType, x: int)
    ensures
        kind.wrap(x) == if x % kind.modulus() > kind.highest() {
            x % kind.modulus() - kind.modulus()
        } else {
            x % kind.modulus()
        },
{
    let m = kind.modulus();
    let r = x % m;
    assert(x == r + (x / m) * m) by (nonlinear_arith)
        requires
            r == x % m,
            m > 0,
    ;
    lemma_wrap_congruent(kind, x, r, x / m);
    if r > kind.highest() {
        lemma_wrap_congruent(kind, r, r - m, 1);
        lemma_wrap_held(kind, r - m);
    } else {
        lemma_wrap_held(kind, r);
    }
}

/// A multiple of a wrapped number wraps to what the multiple of the number itself
/// wraps to.
pub proof fn lemma_wrap_scaled(kind: IntegerType, x: int, factor: int)
    ensures
        kind.wrap(factor * kind.wrap(x)) == kind.wrap(factor * x),
{
    let m = kind.modulus();
    let q = (x - kind.lowest()) / m;
    lemma_fundamental_div_mod(x - kind.lowest(), m);
    assert(kind.wrap(x) == x - m * q);
    assert(factor * (x - m * q) == factor * x + (-(factor * q)) * m) by (nonlinear_arith);
    lemma_wrap_congruent(kind, factor * kind.wrap(x), factor * x, -(factor * q));
}

/// A number that was wrapped into a kind of 128 bits wraps into any kind to what the
/// number itself wraps to.
pub proof fn lemma_wrap_widened(kind: IntegerType, x: int)
    ensures
        kind.wrap(IntegerType::I128.wrap(x)) == kind.wrap(x),
        kind.wrap(IntegerType::U128.wrap(x)) == kind.wrap(x),
{
    let m = IntegerType::U128.modulus();
    let times: int = match kind {
        IntegerType::U8 | IntegerType::I8 => 0x1_0000_0000_0000_0000_0000_0000_0000_00int,
        IntegerType::U16 | IntegerType::I16 => 0x1_0000_0000_0000_0000_0000_0000_0000int,
        IntegerType::U32 | IntegerType::I32 => 0x1_0000_0000_0000_0000_0000_0000int,
        IntegerType::U64 | IntegerType::I64 => 0x1_0000_0000_0000_0000int,
        IntegerType::U128 | IntegerType::I128 => 1int,
    };
    assert(m == times * kind.modulus());
    let signed = (x - IntegerType::I128.lowest()) / m;
    lemma_fundamental_div_mod(x - IntegerType::I128.lowest(), m);
    assert(IntegerType::I128.wrap(x) == x + (-(signed * times)) * kind.modulus())
        by (nonlinear_arith)
        requires
            IntegerType::I128.wrap(x) == x - m * signed,
            m == times * kind.modulus(),
    ;
    lemma_wrap_congruent(kind, IntegerType::I128.wrap(x), x, -(signed * times));
    let unsigned = x / m;
    lemma_fundamental_div_mod(x, m);
    assert(IntegerType::U128.wrap(x) == x + (-(unsigned * times)) * kind.modulus())
        by (nonlinear_arith)
        requires
            IntegerType::U128.wrap(x) == x - m * unsigned,
            m == times * kind.modulus(),
    ;
    lemma_wrap_congruent(kind, IntegerType::U128.wrap(x), x, -(unsigned * times));
}

} // verus!
