//! Group literals.

use crate::span::Span;
use vstd::prelude::*;
use vstd::string::*;

verus! {

/// One coordinate of an affine group literal.
#[derive(Clone, Debug, PartialEq, Eq)]
pub enum GroupCoordinate {
    /// A number, such as `42`.
    Number(String, Span),
    /// The coordinate is recovered from the other one, with the high sign: `+`.
    SignHigh,
    /// The coordinate is recovered from the other one, with the low sign: `-`.
    SignLow,
    /// The coordinate is recovered from the other one: `_`.
    Inferred,
}

impl GroupCoordinate {
    /// The coordinate as it is written.
    pub open spec fn text(self) -> Seq<char> {
        match self {
            GroupCoordinate::Number(number, _) => number@,
            GroupCoordinate::SignHigh => "+"@,
            GroupCoordinate::SignLow => "-"@,
            GroupCoordinate::Inferred => "_"@,
        }
    }

    /// The coordinate as it is written.
    pub fn to_string(&self) -> (s: String)
        ensures
            s@ == self.text(),
    {
        match self {
            GroupCoordinate::Number(number, _) => number.clone(),
            GroupCoordinate::SignHigh => String::from_str("+"),
            GroupCoordinate::SignLow => String::from_str("-"),
            GroupCoordinate::Inferred => String::from_str("_"),
        }
    }
}

/// An affine group literal, such as `(42, 24)group`.
#[derive(Clone, Debug, PartialEq, Eq)]
pub struct GroupTuple {
    /// The first coordinate.
    pub x: GroupCoordinate,
    /// The second coordinate.
    pub y: GroupCoordinate,
    /// The region from `(` to `)`.
    pub span: Span,
}

/// A group literal.
#[derive(Clone, Debug, PartialEq, Eq)]
pub enum GroupLiteral {
    /// A product group literal, such as `42group`.
    Single(String, Span),
    /// An affine group literal with two coordinates.
    Tuple(GroupTuple),
}

impl GroupLiteral {
    /// Where the literal stands in the source.
    pub open spec fn location(self) -> Span {
        match self {
            GroupLiteral::Single(_, span) => span,
            GroupLiteral::Tuple(tuple) => tuple.span,
        }
    }

    /// The literal as it is shown: a product literal by its number, an affine one
    /// by its first coordinate alone.
    pub open spec fn text(self) -> Seq<char> {
        match self {
            GroupLiteral::Single(number, _) => number@,
            GroupLiteral::Tuple(tuple) => tuple.x.text(),
        }
    }

    /// Where the literal stands in the source.
    pub fn span(&self) -> (span: Span)
        ensures
            span == self.location(),
    {
        match self {
            GroupLiteral::Single(_, span) => *span,
            GroupLiteral::Tuple(tuple) => tuple.span,
        }
    }

    /// The literal as it is shown.
    pub fn to_string(&self) -> (s: String)
        ensures
            s@ == self.text(),
    {
        match self {
            GroupLiteral::Single(number, _) => number.clone(),
            GroupLiteral::Tuple(tuple) => tuple.x.to_string(),
        }
    }
}

} // verus!
