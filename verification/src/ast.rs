//! The syntax tree of a source file, as the parser hands it on.
//!
//! Every node knows the region of the source that it was read from. A node is shown
//! by the text that its `to_string` returns.

use crate::code_generation::sequence::joined;
use crate::operand::texts;
use crate::span::Span;
use vstd::prelude::*;
use vstd::string::*;

verus! {

/// The texts of `parts` in a row, with `separator` between each two.
fn join_texts(parts: &Vec<String>, separator: &str) -> (text: String)
    ensures
        text@ == joined(texts(parts@), separator@),
{
    let mut text = String::new();
    let mut i: usize = 0;
    assert(texts(parts@).take(0) =~= Seq::empty());
    while i < parts.len()
        invariant
            i <= parts.len(),
            text@ == joined(texts(parts@).take(i as int), separator@),
        decreases parts.len() - i,
    {
        proof {
            let all = texts(parts@);
            assert(all.take(i + 1).drop_last() =~= all.take(i as int));
            assert(all.take(i + 1).last() == parts[i as int]@);
            if i == 0 {
                assert(all.take(1)[0] == parts[0]@);
            }
        }
        if i > 0 {
            text.append(separator);
        }
        text.append(parts[i].as_str());
        proof {
            let all = texts(parts@);
            if i == 0 {
                assert(text@ =~= all.take(1)[0]);
            } else {
                assert(text@ =~= joined(all.take(i as int), separator@) + separator@
                    + parts[i as int]@);
            }
        }
        i = i + 1;
    }
    assert(texts(parts@).take(parts.len() as int) =~= texts(parts@));
    text
}

// Visibility

/// The keyword `public`.
#[derive(Clone, Debug, PartialEq)]
pub struct Public {}

/// The keyword `private`.
#[derive(Clone, Debug, PartialEq)]
pub struct Private {}

/// The visibility of a parameter.
#[derive(Clone, Debug, PartialEq)]
pub enum Visibility {
    Public(Public),
    Private(Private),
}

// Unary operations

/// The operator `!`.
#[derive(Clone, Debug, PartialEq)]
pub struct Not {
    pub span: Span,
}

/// The operator `++`.
#[derive(Clone, Debug, PartialEq)]
pub struct Increment {
    pub span: Span,
}

/// The operator `--`.
#[derive(Clone, Debug, PartialEq)]
pub struct Decrement {
    pub span: Span,
}

// Binary operations

/// A binary operator.
#[derive(Clone, Debug, PartialEq)]
pub enum BinaryOperator {
    Or,
    And,
    Eq,
    Neq,
    Geq,
    Gt,
    Leq,
    Lt,
    Add,
    Sub,
    Mul,
    Div,
    Pow,
}

impl BinaryOperator {
    /// How tightly the operator binds: a greater number binds tighter.
    pub open spec fn binding(self) -> nat {
        match self {
            BinaryOperator::Or => 0,
            BinaryOperator::And => 1,
            BinaryOperator::Eq | BinaryOperator::Neq => 2,
            BinaryOperator::Geq
            | BinaryOperator::Gt
            | BinaryOperator::Leq
            | BinaryOperator::Lt => 3,
            BinaryOperator::Add | BinaryOperator::Sub => 4,
            BinaryOperator::Mul | BinaryOperator::Div => 5,
            BinaryOperator::Pow => 6,
        }
    }

    /// How tightly the operator binds: a greater number binds tighter. Operators of
    /// one number are taken from left to right. Disjunction binds loosest; then come
    /// conjunction, the two equalities, the four orderings, sum and difference,
    /// product and quotient, and the power.
    pub fn precedence(&self) -> (level: u8)
        ensures
            level == self.binding(),
    {
        match self {
            BinaryOperator::Or => 0,
            BinaryOperator::And => 1,
            BinaryOperator::Eq | BinaryOperator::Neq => 2,
            BinaryOperator::Geq
            | BinaryOperator::Gt
            | BinaryOperator::Leq
            | BinaryOperator::Lt => 3,
            BinaryOperator::Add | BinaryOperator::Sub => 4,
            BinaryOperator::Mul | BinaryOperator::Div => 5,
            BinaryOperator::Pow => 6,
        }
    }
}

// Types

/// The type `u32`.
#[derive(Clone, Debug, PartialEq)]
pub struct U32Type {
    pub span: Span,
}

/// The type `field`.
#[derive(Clone, Debug, PartialEq)]
pub struct FieldType {
    pub span: Span,
}

/// The type `bool`.
#[derive(Clone, Debug, PartialEq)]
pub struct BooleanType {
    pub span: Span,
}

/// The type of a struct, by its name.
#[derive(Clone, Debug, PartialEq)]
pub struct StructType {
    pub variable: Variable,
    pub span: Span,
}

/// A type that is built in.
#[derive(Clone, Debug, PartialEq)]
pub enum BasicType {
    U32(U32Type),
    Field(FieldType),
    Boolean(BooleanType),
}

/// A type that is built in, or the type of a struct.
#[derive(Clone, Debug, PartialEq)]
pub enum BasicOrStructType {
    Struct(StructType),
    Basic(BasicType),
}

/// The type of an array.
#[derive(Clone, Debug, PartialEq)]
pub struct ArrayType {
    pub ty: BasicType,
    pub count: Value,
    pub span: Span,
}

/// A type.
#[derive(Clone, Debug, PartialEq)]
pub enum Type {
    Basic(BasicType),
    Array(ArrayType),
    Struct(StructType),
}

impl Type {
    /// The type as it is shown: by its sort alone.
    pub open spec fn text(self) -> Seq<char> {
        match self {
            Type::Basic(_) => "basic"@,
            Type::Array(_) => "array"@,
            Type::Struct(_) => "struct"@,
        }
    }

    /// The type as it is shown.
    pub fn to_string(&self) -> (s: String)
        ensures
            s@ == self.text(),
    {
        match self {
            Type::Basic(_) => String::from_str("basic"),
            Type::Array(_) => String::from_str("array"),
            Type::Struct(_) => String::from_str("struct"),
        }
    }
}

// Values

/// A number, as it is written.
#[derive(Clone, Debug, PartialEq)]
pub struct Number {
    pub value: String,
    pub span: Span,
}

impl Number {
    /// The number as it is shown.
    pub fn to_string(&self) -> (s: String)
        ensures
            s@ == self.value@,
    {
        self.value.clone()
    }
}

/// A `u32` literal: a number, with the type behind it or without.
#[derive(Clone, Debug, PartialEq)]
pub struct U32 {
    pub number: Number,
    pub ty: Option<U32Type>,
    pub span: Span,
}

impl U32 {
    /// The literal as it is shown: its number.
    pub fn to_string(&self) -> (s: String)
        ensures
            s@ == self.number.value@,
    {
        self.number.to_string()
    }
}

/// A field literal: a number with the type behind it.
#[derive(Clone, Debug, PartialEq)]
pub struct Field {
    pub number: Number,
    pub ty: FieldType,
    pub span: Span,
}

impl Field {
    /// The literal as it is shown: its number.
    pub fn to_string(&self) -> (s: String)
        ensures
            s@ == self.number.value@,
    {
        self.number.to_string()
    }
}

/// A boolean literal, as it is written.
#[derive(Clone, Debug, PartialEq)]
pub struct Boolean {
    pub value: String,
    pub span: Span,
}

impl Boolean {
    /// The literal as it is shown.
    pub fn to_string(&self) -> (s: String)
        ensures
            s@ == self.value@,
    {
        self.value.clone()
    }
}

/// A literal.
#[derive(Clone, Debug, PartialEq)]
pub enum Value {
    Field(Field),
    Boolean(Boolean),
    U32(U32),
}

impl Value {
    /// The region of the source that the literal was read from.
    pub open spec fn location(self) -> Span {
        match self {
            Value::U32(value) => value.span,
            Value::Field(value) => value.span,
            Value::Boolean(value) => value.span,
        }
    }

    /// The literal as it is shown: a number by its digits, a boolean as it is
    /// written.
    pub open spec fn text(self) -> Seq<char> {
        match self {
            Value::U32(value) => value.number.value@,
            Value::Field(value) => value.number.value@,
            Value::Boolean(value) => value.value@,
        }
    }

    /// The region of the source that the literal was read from.
    pub fn span(&self) -> (span: &Span)
        ensures
            *span == self.location(),
    {
        match self {
            Value::U32(value) => &value.span,
            Value::Field(value) => &value.span,
            Value::Boolean(value) => &value.span,
        }
    }

    /// The literal as it is shown.
    pub fn to_string(&self) -> (s: String)
        ensures
            s@ == self.text(),
    {
        match self {
            Value::U32(value) => value.to_string(),
            Value::Field(value) => value.to_string(),
            Value::Boolean(value) => value.to_string(),
        }
    }
}

// Variables

/// A name, as it is written.
#[derive(Clone, Debug, PartialEq)]
pub struct Variable {
    pub value: String,
    pub span: Span,
}

impl Variable {
    /// The name as it is shown.
    pub fn to_string(&self) -> (s: String)
        ensures
            s@ == self.value@,
    {
        self.value.clone()
    }
}

// Access

/// The expression in front of the dots of a range.
#[derive(Debug, PartialEq)]
pub struct FromExpression(pub Expression);

/// The expression behind the dots of a range.
#[derive(Debug, PartialEq)]
pub struct ToExpression(pub Expression);

/// A range of indices, `from..to`, where either end may be left out.
#[derive(Debug, PartialEq)]
pub struct Range {
    pub from: Option<FromExpression>,
    pub to: Option<ToExpression>,
    pub span: Span,
}

/// What stands between the brackets of an array access.
#[derive(Debug, PartialEq)]
pub enum RangeOrExpression {
    Range(Range),
    Expression(Expression),
}

impl RangeOrExpression {
    /// What stands between the brackets, as it is shown: an expression as it is
    /// shown; a range by its two ends with two dots between them, an end that was
    /// left out by nothing.
    pub open spec fn text(self) -> Seq<char> {
        match self {
            RangeOrExpression::Expression(expression) => expression.text(),
            RangeOrExpression::Range(range) => (match range.from {
                Some(from) => from.0.text(),
                None => ""@,
            }) + ".."@ + (match range.to {
                Some(to) => to.0.text(),
                None => ""@,
            }),
        }
    }

    /// What stands between the brackets, as it is shown.
    pub fn to_string(&self) -> (s: String)
        ensures
            s@ == self.text(),
    {
        match self {
            RangeOrExpression::Expression(expression) => expression.to_string(),
            RangeOrExpression::Range(range) => {
                let mut s = match &range.from {
                    Some(from) => from.0.to_string(),
                    None => String::from_str(""),
                };
                s.append("..");
                let to = match &range.to {
                    Some(to) => to.0.to_string(),
                    None => String::from_str(""),
                };
                s.append(to.as_str());
                s
            },
        }
    }
}

/// A call: the arguments in parentheses.
#[derive(Debug, PartialEq)]
pub struct CallAccess {
    pub expressions: Vec<Expression>,
    pub span: Span,
}

/// An access of an array: an index or a range in brackets.
#[derive(Debug, PartialEq)]
pub struct ArrayAccess {
    pub expression: RangeOrExpression,
    pub span: Span,
}

/// An access of a member of a struct: a dot and a name.
#[derive(Debug, PartialEq)]
pub struct MemberAccess {
    pub variable: Variable,
    pub span: Span,
}

/// What can stand behind a name in an expression.
#[derive(Debug, PartialEq)]
pub enum Access {
    Array(ArrayAccess),
    Call(CallAccess),
    Member(MemberAccess),
}

/// A name with the accesses behind it.
#[derive(Debug, PartialEq)]
pub struct PostfixExpression {
    pub variable: Variable,
    pub accesses: Vec<Access>,
    pub span: Span,
}

/// What can stand behind a name that is assigned to.
#[derive(Debug, PartialEq)]
pub enum AssigneeAccess {
    Array(ArrayAccess),
    Member(MemberAccess),
}

impl AssigneeAccess {
    /// The access as it is shown: `[index]` or `.member`.
    pub open spec fn text(self) -> Seq<char> {
        match self {
            AssigneeAccess::Array(array) => "["@ + array.expression.text() + "]"@,
            AssigneeAccess::Member(member) => "."@ + member.variable.value@,
        }
    }

    /// The access as it is shown.
    pub fn to_string(&self) -> (s: String)
        ensures
            s@ == self.text(),
    {
        match self {
            AssigneeAccess::Array(array) => {
                let mut s = String::from_str("[");
                s.append(array.expression.to_string().as_str());
                s.append("]");
                s
            },
            AssigneeAccess::Member(member) => {
                let mut s = String::from_str(".");
                s.append(member.variable.value.as_str());
                s
            },
        }
    }
}

/// What is assigned to: a name with the accesses behind it.
#[derive(Debug, PartialEq)]
pub struct Assignee {
    pub variable: Variable,
    pub accesses: Vec<AssigneeAccess>,
    pub span: Span,
}

impl Assignee {
    /// The accesses as they are shown, in their order.
    pub open spec fn access_texts(self) -> Seq<Seq<char>> {
        Seq::new(self.accesses.len() as nat, |i: int| self.accesses[i].text())
    }

    /// What is assigned to, as it is shown: the name, and behind it the accesses
    /// with a comma and a space between each two.
    pub open spec fn text(self) -> Seq<char> {
        self.variable.value@ + joined(self.access_texts(), ", "@)
    }

    /// What is assigned to, as it is shown.
    pub fn to_string(&self) -> (s: String)
        ensures
            s@ == self.text(),
    {
        let mut parts: Vec<String> = Vec::new();
        let mut i: usize = 0;
        while i < self.accesses.len()
            invariant
                i <= self.accesses.len(),
                parts.len() == i,
                forall|j: int| 0 <= j < i ==> parts[j]@ == self.accesses[j].text(),
            decreases self.accesses.len() - i,
        {
            parts.push(self.accesses[i].to_string());
            i = i + 1;
        }
        assert(texts(parts@) =~= self.access_texts());
        let mut s = self.variable.to_string();
        s.append(join_texts(&parts, ", ").as_str());
        s
    }
}

/// An array that is spread into another: `...array`.
#[derive(Debug, PartialEq)]
pub struct Spread {
    pub expression: Expression,
    pub span: Span,
}

impl Spread {
    /// The spread as it is shown: three dots and the expression.
    pub open spec fn text(self) -> Seq<char>
        decreases self,
    {
        "..."@ + self.expression.text()
    }

    /// The spread as it is shown.
    pub fn to_string(&self) -> (s: String)
        ensures
            s@ == self.text(),
        decreases self,
    {
        let mut s = String::from_str("...");
        s.append(self.expression.to_string().as_str());
        s
    }
}

/// An item of an array that is written out.
#[derive(Debug, PartialEq)]
pub enum SpreadOrExpression {
    Spread(Spread),
    Expression(Expression),
}

impl SpreadOrExpression {
    /// The item as it is shown.
    pub open spec fn text(self) -> Seq<char>
        decreases self,
    {
        match self {
            SpreadOrExpression::Spread(spread) => spread.text(),
            SpreadOrExpression::Expression(expression) => expression.text(),
        }
    }

    /// The item as it is shown.
    pub fn to_string(&self) -> (s: String)
        ensures
            s@ == self.text(),
        decreases self,
    {
        match self {
            SpreadOrExpression::Spread(spread) => spread.to_string(),
            SpreadOrExpression::Expression(expression) => expression.to_string(),
        }
    }
}

// Arrays

/// An array that is written out item by item.
#[derive(Debug, PartialEq)]
pub struct ArrayInlineExpression {
    pub expressions: Vec<SpreadOrExpression>,
    pub span: Span,
}

/// An array of one item taken a number of times: `[item; count]`.
#[derive(Debug, PartialEq)]
pub struct ArrayInitializerExpression {
    pub expression: Box<SpreadOrExpression>,
    pub count: Value,
    pub span: Span,
}

// Structs

/// A field in the definition of a struct.
#[derive(Debug, PartialEq)]
pub struct StructField {
    pub ty: Type,
    pub variable: Variable,
    pub span: Span,
}

/// The definition of a struct.
#[derive(Debug, PartialEq)]
pub struct Struct {
    pub variable: Variable,
    pub fields: Vec<StructField>,
    pub span: Span,
}

/// A member of a struct that is written out.
#[derive(Debug, PartialEq)]
pub struct InlineStructMember {
    pub variable: Variable,
    pub expression: Expression,
    pub span: Span,
}

/// A struct that is written out member by member.
#[derive(Debug, PartialEq)]
pub struct StructInlineExpression {
    pub variable: Variable,
    pub members: Vec<InlineStructMember>,
    pub span: Span,
}

// Expressions

/// A negation, `!e`.
#[derive(Debug, PartialEq)]
pub struct NotExpression {
    pub operation: Not,
    pub expression: Box<Expression>,
    pub span: Span,
}

/// An increment, `e++`.
#[derive(Debug, PartialEq)]
pub struct IncrementExpression {
    pub expression: Box<Expression>,
    pub operation: Increment,
    pub span: Span,
}

/// A decrement, `e--`.
#[derive(Debug, PartialEq)]
pub struct DecrementExpression {
    pub expression: Box<Expression>,
    pub operation: Decrement,
    pub span: Span,
}

/// Two expressions with a binary operator between them.
#[derive(Debug, PartialEq)]
pub struct BinaryExpression {
    pub operation: BinaryOperator,
    pub left: Box<Expression>,
    pub right: Box<Expression>,
    pub span: Span,
}

/// A choice between two expressions by a third.
#[derive(Debug, PartialEq)]
pub struct TernaryExpression {
    pub first: Box<Expression>,
    pub second: Box<Expression>,
    pub third: Box<Expression>,
    pub span: Span,
}

/// An expression.
#[derive(Debug, PartialEq)]
pub enum Expression {
    Value(Value),
    Variable(Variable),
    Not(NotExpression),
    Increment(IncrementExpression),
    Decrement(DecrementExpression),
    Binary(BinaryExpression),
    Ternary(TernaryExpression),
    ArrayInline(ArrayInlineExpression),
    ArrayInitializer(ArrayInitializerExpression),
    StructInline(StructInlineExpression),
    Postfix(PostfixExpression),
}

/// The items of an array as they are shown, in their order.
pub open spec fn item_texts(items: Vec<SpreadOrExpression>) -> Seq<Seq<char>>
    decreases items,
{
    Seq::new(
        items.len() as nat,
        |i: int|
            if 0 <= i < items.len() {
                items[i].text()
            } else {
                Seq::empty()
            },
    )
}

/// The items of an array as they are shown, in their order.
fn item_strings(items: &Vec<SpreadOrExpression>) -> (parts: Vec<String>)
    ensures
        texts(parts@) == item_texts(*items),
    decreases items,
{
    let mut parts: Vec<String> = Vec::new();
    let mut i: usize = 0;
    while i < items.len()
        invariant
            i <= items.len(),
            parts.len() == i,
            forall|j: int| 0 <= j < i ==> parts[j]@ == items[j].text(),
        decreases items.len() - i,
    {
        parts.push(items[i].to_string());
        i = i + 1;
    }
    assert(texts(parts@) =~= item_texts(*items));
    parts
}

impl Expression {
    /// The region of the source that the expression was read from.
    pub open spec fn location(self) -> Span {
        match self {
            Expression::Value(expression) => expression.location(),
            Expression::Variable(expression) => expression.span,
            Expression::Not(expression) => expression.span,
            Expression::Increment(expression) => expression.span,
            Expression::Decrement(expression) => expression.span,
            Expression::Binary(expression) => expression.span,
            Expression::Ternary(expression) => expression.span,
            Expression::ArrayInline(expression) => expression.span,
            Expression::ArrayInitializer(expression) => expression.span,
            Expression::StructInline(expression) => expression.span,
            Expression::Postfix(expression) => expression.span,
        }
    }

    /// The expression as it is shown. A literal and a name are shown as they are
    /// written; a unary operation by its operand with the operator in front of it or
    /// behind it; every binary operation by its operands with `==` between them; a
    /// choice between the words `if`, `then`, `else` and `fi`; an array that is
    /// written out by its items with a comma and a space between each two; an array
    /// of one item by the item and the count in brackets; a struct that is written
    /// out and a name with accesses by a notice and the name.
    pub open spec fn text(self) -> Seq<char>
        decreases self,
    {
        match self {
            Expression::Value(expression) => expression.text(),
            Expression::Variable(expression) => expression.value@,
            Expression::Not(expression) => "!"@ + expression.expression.text(),
            Expression::Increment(expression) => expression.expression.text() + "++"@,
            Expression::Decrement(expression) => expression.expression.text() + "--"@,
            Expression::Binary(expression) => expression.left.text() + " == "@
                + expression.right.text(),
            Expression::Ternary(expression) => "if "@ + expression.first.text() + " then "@
                + expression.second.text() + " else "@ + expression.third.text() + " fi"@,
            Expression::ArrayInline(expression) => joined(
                item_texts(expression.expressions),
                ", "@,
            ),
            Expression::ArrayInitializer(expression) => "["@ + expression.expression.text()
                + " ; "@ + expression.count.text() + "]"@,
            Expression::StructInline(expression) => "inline struct display not impl "@
                + expression.variable.value@,
            Expression::Postfix(expression) => "Postfix display not impl "@
                + expression.variable.value@,
        }
    }

    /// The binary operation `operation` on `left` and `right`, read from `span`.
    pub fn binary(
        operation: BinaryOperator,
        left: Box<Expression>,
        right: Box<Expression>,
        span: Span,
    ) -> (expression: Expression)
        ensures
            expression == Expression::Binary(BinaryExpression { operation, left, right, span }),
    {
        Expression::Binary(BinaryExpression { operation, left, right, span })
    }

    /// The choice between `second` and `third` by `first`, read from `span`.
    pub fn ternary(
        first: Box<Expression>,
        second: Box<Expression>,
        third: Box<Expression>,
        span: Span,
    ) -> (expression: Expression)
        ensures
            expression == Expression::Ternary(TernaryExpression { first, second, third, span }),
    {
        Expression::Ternary(TernaryExpression { first, second, third, span })
    }

    /// The region of the source that the expression was read from.
    pub fn span(&self) -> (span: &Span)
        ensures
            *span == self.location(),
    {
        match self {
            Expression::Value(expression) => expression.span(),
            Expression::Variable(expression) => &expression.span,
            Expression::Not(expression) => &expression.span,
            Expression::Increment(expression) => &expression.span,
            Expression::Decrement(expression) => &expression.span,
            Expression::Binary(expression) => &expression.span,
            Expression::Ternary(expression) => &expression.span,
            Expression::ArrayInline(expression) => &expression.span,
            Expression::ArrayInitializer(expression) => &expression.span,
            Expression::StructInline(expression) => &expression.span,
            Expression::Postfix(expression) => &expression.span,
        }
    }

    /// The expression as it is shown.
    pub fn to_string(&self) -> (s: String)
        ensures
            s@ == self.text(),
        decreases self,
    {
        match self {
            Expression::Value(expression) => expression.to_string(),
            Expression::Variable(expression) => expression.to_string(),
            Expression::Not(expression) => {
                let mut s = String::from_str("!");
                s.append(expression.expression.to_string().as_str());
                s
            },
            Expression::Increment(expression) => {
                let mut s = expression.expression.to_string();
                s.append("++");
                s
            },
            Expression::Decrement(expression) => {
                let mut s = expression.expression.to_string();
                s.append("--");
                s
            },
            Expression::Binary(expression) => {
                let mut s = expression.left.to_string();
                s.append(" == ");
                s.append(expression.right.to_string().as_str());
                s
            },
            Expression::Ternary(expression) => {
                let mut s = String::from_str("if ");
                s.append(expression.first.to_string().as_str());
                s.append(" then ");
                s.append(expression.second.to_string().as_str());
                s.append(" else ");
                s.append(expression.third.to_string().as_str());
                s.append(" fi");
                s
            },
            Expression::ArrayInline(expression) => {
                let parts = item_strings(&expression.expressions);
                join_texts(&parts, ", ")
            },
            Expression::ArrayInitializer(expression) => {
                let mut s = String::from_str("[");
                s.append(expression.expression.to_string().as_str());
                s.append(" ; ");
                s.append(expression.count.to_string().as_str());
                s.append("]");
                s
            },
            Expression::StructInline(expression) => {
                let mut s = String::from_str("inline struct display not impl ");
                s.append(expression.variable.value.as_str());
                s
            },
            Expression::Postfix(expression) => {
                let mut s = String::from_str("Postfix display not impl ");
                s.append(expression.variable.value.as_str());
                s
            },
        }
    }
}

/// The binary operation `operation` on `lhs` and `rhs`, read from the region that
/// starts where `lhs` starts and ends where `rhs` ends.
pub fn binary_expression(
    lhs: Box<Expression>,
    operation: BinaryOperator,
    rhs: Box<Expression>,
) -> (expression: Box<Expression>)
    ensures
        *expression == Expression::Binary(
            BinaryExpression {
                operation,
                left: lhs,
                right: rhs,
                span: Span { lo: lhs.location().lo, hi: rhs.location().hi },
            },
        ),
{
    let span = Span { lo: lhs.span().lo, hi: rhs.span().hi };
    Box::new(Expression::binary(operation, lhs, rhs, span))
}

/// The expressions as they are shown, in their order.
pub open spec fn expression_texts(expressions: Vec<Expression>) -> Seq<Seq<char>> {
    Seq::new(expressions.len() as nat, |i: int| expressions[i].text())
}

// Statements

/// An assignment, `assignee = expression`.
#[derive(Debug, PartialEq)]
pub struct AssignStatement {
    pub assignee: Assignee,
    pub expression: Expression,
    pub span: Span,
}

impl AssignStatement {
    /// The statement as it is shown: what is assigned to, `=`, and the expression.
    pub open spec fn text(self) -> Seq<char> {
        self.assignee.text() + " = "@ + self.expression.text()
    }

    /// The statement as it is shown.
    pub fn to_string(&self) -> (s: String)
        ensures
            s@ == self.text(),
    {
        let mut s = self.assignee.to_string();
        s.append(" = ");
        s.append(self.expression.to_string().as_str());
        s
    }
}

/// A definition of a variable, `type variable = expression`.
#[derive(Debug, PartialEq)]
pub struct DefinitionStatement {
    pub ty: Type,
    pub variable: Variable,
    pub expression: Expression,
    pub span: Span,
}

impl DefinitionStatement {
    /// The statement as it is shown: the type, the name, `=`, and the expression.
    pub open spec fn text(self) -> Seq<char> {
        self.ty.text() + " "@ + self.variable.value@ + " = "@ + self.expression.text()
    }

    /// The statement as it is shown.
    pub fn to_string(&self) -> (s: String)
        ensures
            s@ == self.text(),
    {
        let mut s = self.ty.to_string();
        s.append(" ");
        s.append(self.variable.value.as_str());
        s.append(" = ");
        s.append(self.expression.to_string().as_str());
        s
    }
}

/// A return of one expression or several.
#[derive(Debug, PartialEq)]
pub struct ReturnStatement {
    pub expressions: Vec<Expression>,
    pub span: Span,
}

impl ReturnStatement {
    /// The statement as it is shown: the expressions with a comma and a space
    /// between each two.
    pub open spec fn text(self) -> Seq<char> {
        joined(expression_texts(self.expressions), ", "@)
    }

    /// The statement as it is shown.
    pub fn to_string(&self) -> (s: String)
        ensures
            s@ == self.text(),
    {
        let mut parts: Vec<String> = Vec::new();
        let mut i: usize = 0;
        while i < self.expressions.len()
            invariant
                i <= self.expressions.len(),
                parts.len() == i,
                forall|j: int| 0 <= j < i ==> parts[j]@ == self.expressions[j].text(),
            decreases self.expressions.len() - i,
        {
            parts.push(self.expressions[i].to_string());
            i = i + 1;
        }
        assert(texts(parts@) =~= expression_texts(self.expressions));
        join_texts(&parts, ", ")
    }
}

/// A loop over a range of indices.
#[derive(Debug, PartialEq)]
pub struct ForStatement {
    pub index: Variable,
    pub start: Expression,
    pub stop: Expression,
    pub statements: Vec<Statement>,
    pub span: Span,
}

/// The text that the pretty `Debug` formatting of the standard library gives for
/// `statements`: every statement with all its parts, each part on a line of its own.
pub uninterp spec fn debug_text(statements: Seq<Statement>) -> Seq<char>;

/// `format!` of the standard library with `{:#?}`, on the statements of a loop: the
/// text that the pretty `Debug` formatting gives for them. The formatting depends on
/// the statements alone; the contract gives its text a name and says no more of it.
#[verifier::external_body]
fn debug_string(statements: &Vec<Statement>) -> (text: String)
    ensures
        text@ == debug_text(statements@),
{
    format!("{:#?}", statements)
}

impl ForStatement {
    /// The loop as it is shown: the index and the two ends of the range between the
    /// words `for`, `in` and `do`, and behind them the statements, as the pretty
    /// `Debug` formatting shows them, and the word `endfor`.
    pub open spec fn text(self) -> Seq<char> {
        "for "@ + self.index.value@ + " in "@ + self.start.text() + ".."@ + self.stop.text()
            + " do "@ + debug_text(self.statements@) + " endfor"@
    }

    /// The loop as it is shown.
    pub fn to_string(&self) -> (s: String)
        ensures
            s@ == self.text(),
    {
        let mut s = String::from_str("for ");
        s.append(self.index.value.as_str());
        s.append(" in ");
        s.append(self.start.to_string().as_str());
        s.append("..");
        s.append(self.stop.to_string().as_str());
        s.append(" do ");
        s.append(debug_string(&self.statements).as_str());
        s.append(" endfor");
        s
    }
}

/// A statement.
#[derive(Debug, PartialEq)]
pub enum Statement {
    Assign(AssignStatement),
    Definition(DefinitionStatement),
    Return(ReturnStatement),
    Iteration(ForStatement),
}

impl Statement {
    /// The statement as it is shown.
    pub open spec fn text(self) -> Seq<char> {
        match self {
            Statement::Assign(statement) => statement.text(),
            Statement::Definition(statement) => statement.text(),
            Statement::Return(statement) => statement.text(),
            Statement::Iteration(statement) => statement.text(),
        }
    }

    /// The statement as it is shown.
    pub fn to_string(&self) -> (s: String)
        ensures
            s@ == self.text(),
    {
        match self {
            Statement::Assign(statement) => statement.to_string(),
            Statement::Definition(statement) => statement.to_string(),
            Statement::Return(statement) => statement.to_string(),
            Statement::Iteration(statement) => statement.to_string(),
        }
    }
}

// Functions

/// A parameter of a function.
#[derive(Debug, PartialEq)]
pub struct Parameter {
    pub variable: Variable,
    pub visibility: Option<Visibility>,
    pub ty: Type,
    pub span: Span,
}

/// The name of a function, as it is written.
#[derive(Clone, Debug, PartialEq)]
pub struct FunctionName {
    pub value: String,
    pub span: Span,
}

/// The definition of a function.
#[derive(Debug, PartialEq)]
pub struct Function {
    pub function_name: FunctionName,
    pub parameters: Vec<Parameter>,
    pub returns: Vec<Type>,
    pub statements: Vec<Statement>,
    pub span: Span,
}

// Utilities

/// The end of the input.
#[derive(Clone, Debug, PartialEq)]
pub struct EOI;

// Imports

/// The file that an import names, as it is written.
#[derive(Clone, Debug, PartialEq)]
pub struct ImportSource {
    pub value: String,
    pub span: Span,
}

/// An import of a whole file, under its own name or under another.
#[derive(Clone, Debug, PartialEq)]
pub struct MainImport {
    pub source: ImportSource,
    pub alias: Option<Variable>,
    pub span: Span,
}

/// An import of one name from a file, under its own name or under another.
#[derive(Clone, Debug, PartialEq)]
pub struct FromImport {
    pub source: ImportSource,
    pub symbol: Variable,
    pub alias: Option<Variable>,
    pub span: Span,
}

/// An import.
#[derive(Clone, Debug, PartialEq)]
pub enum Import {
    Main(MainImport),
    From(FromImport),
}

// File

/// A source file.
#[derive(Debug, PartialEq)]
pub struct File {
    pub imports: Vec<Import>,
    pub structs: Vec<Struct>,
    pub functions: Vec<Function>,
    pub eoi: EOI,
    pub span: Span,
}

} // verus!
