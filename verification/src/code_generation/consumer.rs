//! What the code generator leaves to its user: the lowering of expressions and the
//! writing of types.
//!
//! A consumer is handed in by value and handed back with what it returns, so that what
//! it was before a call and what it is after it can be told apart. What a consumer
//! returns is its own affair. The code generator states of every call what was
//! handed to it, and in which order the calls were made.

use crate::code_generation::variable_mapping::VariableMapping;
use crate::statement::Expression;
use crate::symbol_table::Mode;
use vstd::prelude::*;

verus! {

/// What lowers the expressions of a statement.
pub trait ExpressionConsumer<E>: Sized {
    /// Lowers `input`, with the variables bound as in `variables`. Returns the
    /// consumer as it is after that, and with it the operand that holds the result and
    /// the instructions that compute it.
    fn consume_expression(
        self,
        variables: &VariableMapping,
        input: &Expression<E>,
    ) -> (Self, (String, String));
}

/// What writes the type of an output.
pub trait TypeFormatter<T>: Sized {
    /// Writes `type_` with the visibility `visibility`, as it stands in an output
    /// instruction. Returns the formatter as it is after that, and with it the text.
    fn consume_type_with_visibility(self, type_: &T, visibility: Mode) -> (Self, String);
}

/// Whether the consumer `before`, with the variables bound as in `variables`, can
/// lower `input` to the operand and the instructions `lowered` and be `after` then.
pub open spec fn lowers<E, L: ExpressionConsumer<E>>(
    before: L,
    variables: VariableMapping,
    input: Expression<E>,
    after: L,
    lowered: (String, String),
) -> bool {
    call_ensures(L::consume_expression, (before, &variables, &input), (after, lowered))
}

/// Whether the formatter `before` can write `type_` with the visibility `visibility`
/// as `text` and be `after` then.
pub open spec fn writes<T, L: TypeFormatter<T>>(
    before: L,
    type_: T,
    visibility: Mode,
    after: L,
    text: String,
) -> bool {
    call_ensures(L::consume_type_with_visibility, (before, &type_, visibility), (after, text))
}

/// Whether the consumer `before` can lower the first `n` of `inputs`, one after the
/// other from left to right, to `lowered` and be `after` then.
pub open spec fn lowers_all<E, L: ExpressionConsumer<E>>(
    before: L,
    variables: VariableMapping,
    inputs: Seq<Expression<E>>,
    n: int,
    after: L,
    lowered: Seq<(String, String)>,
) -> bool
    decreases n,
{
    if n <= 0 {
        after == before && lowered.len() == 0
    } else {
        &&& lowered.len() == n
        &&& exists|middle: L|
            lowers_all(before, variables, inputs, n - 1, middle, lowered.drop_last())
                && #[trigger] lowers(middle, variables, inputs[n - 1], after, lowered.last())
    }
}

/// The operand and the instructions of a lowered expression, as texts.
pub open spec fn pair(lowered: (String, String)) -> (Seq<char>, Seq<char>) {
    (lowered.0@, lowered.1@)
}

/// The operands and the instructions of lowered expressions, as texts.
pub open spec fn pairs(lowered: Seq<(String, String)>) -> Seq<(Seq<char>, Seq<char>)> {
    lowered.map_values(|l: (String, String)| pair(l))
}

} // verus!
