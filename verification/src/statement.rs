//! The statements that reach code generation, and the expressions in them.
//!
//! Code generation reads of an expression only its outermost form; what lies below
//! is for the expression consumer. So an expression is one of the forms that the
//! statements tell apart, and carries the node of the syntax tree, of a type `E`
//! that this library does not look into, wherever the form alone does not say
//! everything.

use crate::span::Span;
use vstd::prelude::*;

verus! {

/// A name as the user wrote it.
#[derive(Clone, Debug, PartialEq, Eq)]
pub struct Identifier {
    /// The name.
    pub name: String,
    /// Where the name stands in the source.
    pub span: Span,
}

/// An expression, by its outermost form.
#[derive(Debug, PartialEq, Eq)]
pub enum Expression<E> {
    /// A variable.
    Identifier(Identifier),
    /// A tuple of expressions, such as `(a, b)`.
    Tuple(Vec<Expression<E>>),
    /// A call of a function.
    Call(E),
    /// The unit expression `()`.
    Unit,
    /// An expression of any other form.
    Other(E),
}

impl<E> Expression<E> {
    /// Whether the expression is a tuple of variables.
    pub open spec fn is_tuple_of_identifiers(self) -> bool {
        &&& self is Tuple
        &&& forall|i: int| 0 <= i < self->Tuple_0.len() ==> self->Tuple_0[i] is Identifier
    }

    /// The names of a tuple of variables, from left to right.
    pub open spec fn tuple_names(self) -> Seq<Seq<char>> {
        Seq::new(self->Tuple_0.len() as nat, |i: int| self->Tuple_0[i]->Identifier_0.name@)
    }
}

/// An assertion, by what it asserts.
#[derive(Debug, PartialEq, Eq)]
pub enum AssertVariant<E> {
    /// `assert(a)`: the expression is true.
    Assert(Expression<E>),
    /// `assert_eq(a, b)`: the two expressions are equal.
    AssertEq(Expression<E>, Expression<E>),
    /// `assert_neq(a, b)`: the two expressions are not equal.
    AssertNeq(Expression<E>, Expression<E>),
}

/// An assertion.
#[derive(Debug, PartialEq, Eq)]
pub struct AssertStatement<E> {
    /// What is asserted.
    pub variant: AssertVariant<E>,
    /// Where the statement stands in the source.
    pub span: Span,
}

/// An assignment, `place = value`.
#[derive(Debug, PartialEq, Eq)]
pub struct AssignStatement<E> {
    /// What is assigned to: a variable, or a tuple of variables.
    pub place: Expression<E>,
    /// What is assigned.
    pub value: Expression<E>,
    /// Where the statement stands in the source.
    pub span: Span,
}

/// A sequence of statements in braces.
#[derive(Debug, PartialEq, Eq)]
pub struct Block<E> {
    /// The statements, in the order in which they run.
    pub statements: Vec<Statement<E>>,
    /// Where the block stands in the source.
    pub span: Span,
}

/// An expression that stands as a statement, `f(a);`.
#[derive(Debug, PartialEq, Eq)]
pub struct ExpressionStatement<E> {
    /// The expression.
    pub expression: Expression<E>,
    /// Where the statement stands in the source.
    pub span: Span,
}

/// An increment of an entry of a mapping, `increment(mapping, index, amount);`.
#[derive(Debug, PartialEq, Eq)]
pub struct IncrementStatement<E> {
    /// The mapping.
    pub mapping: Identifier,
    /// The key of the entry.
    pub index: Expression<E>,
    /// What is added to the entry.
    pub amount: Expression<E>,
    /// Where the statement stands in the source.
    pub span: Span,
}

/// A decrement of an entry of a mapping, `decrement(mapping, index, amount);`.
#[derive(Debug, PartialEq, Eq)]
pub struct DecrementStatement<E> {
    /// The mapping.
    pub mapping: Identifier,
    /// The key of the entry.
    pub index: Expression<E>,
    /// What is taken from the entry.
    pub amount: Expression<E>,
    /// Where the statement stands in the source.
    pub span: Span,
}

/// A return from a function, `return e;` or `return e then finalize(a, b);`.
#[derive(Debug, PartialEq, Eq)]
pub struct ReturnStatement<E> {
    /// What is returned.
    pub expression: Expression<E>,
    /// The arguments of the finalize block, if the function hands over to one.
    pub finalize_arguments: Option<Vec<Expression<E>>>,
    /// Where the statement stands in the source.
    pub span: Span,
}

/// A statement.
///
/// Conditionals, console statements, definitions and loops have been taken out of a
/// program before code is generated for it. They are statements all the same, and
/// stand here without their parts.
#[derive(Debug, PartialEq, Eq)]
pub enum Statement<E> {
    Assert(AssertStatement<E>),
    Assign(Box<AssignStatement<E>>),
    Block(Block<E>),
    Conditional(Span),
    Console(Span),
    Decrement(DecrementStatement<E>),
    Definition(Span),
    Expression(ExpressionStatement<E>),
    Increment(IncrementStatement<E>),
    Iteration(Span),
    Return(ReturnStatement<E>),
}

} // verus!
