//! Literal expressions.

use crate::group::GroupLiteral;
use crate::span::Span;
use crate::types::IntegerType;
use vstd::prelude::*;

verus! {

/// A literal as it stands in the syntax tree.
#[derive(Clone, Debug, PartialEq, Eq)]
pub enum LiteralExpression {
    /// An address literal.
    Address(String, Span),
    /// A boolean literal, `true` or `false`.
    Boolean(bool, Span),
    /// A field literal: its number, without the keyword.
    Field(String, Span),
    /// A group literal.
    Group(Box<GroupLiteral>),
    /// An integer literal: its type and its number in decimal.
    Integer(IntegerType, String, Span),
    /// A scalar literal: its number, without the keyword.
    Scalar(String, Span),
    /// A string literal: its characters, without the quotes.
    String(String, Span),
}

/// A literal with its texts as sequences of characters.
pub enum LiteralView {
    Address(Seq<char>, Span),
    Boolean(bool, Span),
    Field(Seq<char>, Span),
    Group(GroupLiteral),
    Integer(IntegerType, Seq<char>, Span),
    Scalar(Seq<char>, Span),
    String(Seq<char>, Span),
}

impl View for LiteralExpression {
    type V = LiteralView;

    open spec fn view(&self) -> LiteralView {
        match *self {
            LiteralExpression::Address(text, span) => LiteralView::Address(text@, span),
            LiteralExpression::Boolean(value, span) => LiteralView::Boolean(value, span),
            LiteralExpression::Field(text, span) => LiteralView::Field(text@, span),
            LiteralExpression::Group(group) => LiteralView::Group(*group),
            LiteralExpression::Integer(kind, text, span) => LiteralView::Integer(kind, text@, span),
            LiteralExpression::Scalar(text, span) => LiteralView::Scalar(text@, span),
            LiteralExpression::String(text, span) => LiteralView::String(text@, span),
        }
    }
}

} // verus!
