//! What the evaluation of constants reports to the user.

use crate::span::Span;
use crate::types::Type;
use vstd::prelude::*;

verus! {

/// A diagnostic of the constant value engine.
#[derive(Clone, Debug, PartialEq, Eq)]
pub enum ValueError {
    /// A checked operation left the range of its type, divided by zero, or was given
    /// a shift amount that its type does not have.
    OperationOverflow {
        /// The left operand, in decimal.
        left: String,
        /// The symbol of the operation.
        op: String,
        /// The right operand, in decimal.
        right: String,
        /// The keyword of the right operand's type.
        right_type: String,
        /// Where the operation stands in the source.
        span: Span,
    },
    /// A constant that cannot be a size was used as a loop bound: a negative one,
    /// or one beyond the sizes of the machine.
    LoopHasNegativeValue {
        /// The type of the constant.
        type_: Type,
        /// Where the constant stands in the source.
        span: Span,
    },
    /// A constant that is no integer was used as a loop bound.
    CannotUseTypeAsLoopBound {
        /// The constant as it is shown.
        value: String,
        /// Where the constant stands in the source.
        span: Span,
    },
}

/// A diagnostic with its texts as sequences of characters.
pub enum ValueErrorView {
    OperationOverflow {
        left: Seq<char>,
        op: Seq<char>,
        right: Seq<char>,
        right_type: Seq<char>,
        span: Span,
    },
    LoopHasNegativeValue { type_: Type, span: Span },
    CannotUseTypeAsLoopBound { value: Seq<char>, span: Span },
}

impl View for ValueError {
    type V = ValueErrorView;

    open spec fn view(&self) -> ValueErrorView {
        match *self {
            ValueError::OperationOverflow { left, op, right, right_type, span } => {
                ValueErrorView::OperationOverflow {
                    left: left@,
                    op: op@,
                    right: right@,
                    right_type: right_type@,
                    span,
                }
            },
            ValueError::LoopHasNegativeValue { type_, span } => {
                ValueErrorView::LoopHasNegativeValue { type_, span }
            },
            ValueError::CannotUseTypeAsLoopBound { value, span } => {
                ValueErrorView::CannotUseTypeAsLoopBound { value: value@, span }
            },
        }
    }
}

} // verus!
