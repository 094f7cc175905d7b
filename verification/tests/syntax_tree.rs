use leo_passes::ast::{
    binary_expression, ArrayAccess, ArrayInitializerExpression, ArrayInlineExpression, Assignee,
    AssigneeAccess, AssignStatement, BasicType, BinaryExpression, BinaryOperator, Boolean,
    DecrementExpression, Decrement, DefinitionStatement, Expression, Field, FieldType,
    ForStatement, FromExpression, Increment, IncrementExpression, MemberAccess, Not, NotExpression, Number,
    PostfixExpression, Range, RangeOrExpression, ReturnStatement, Spread, SpreadOrExpression,
    Statement, StructInlineExpression, StructType, TernaryExpression, ToExpression, Type, U32Type,
    Value, Variable, U32,
};
use leo_passes::span::Span;

fn at(lo: u32, hi: u32) -> Span {
    Span::new(lo, hi)
}

fn number(text: &str, span: Span) -> Expression {
    Expression::Value(Value::U32(U32 {
        number: Number { value: text.to_string(), span },
        ty: None,
        span,
    }))
}

fn count(text: &str) -> Value {
    Value::U32(U32 { number: Number { value: text.to_string(), span: at(0, 0) }, ty: None, span: at(0, 0) })
}

fn named(text: &str) -> Variable {
    Variable { value: text.to_string(), span: at(0, 0) }
}

fn variable(text: &str, span: Span) -> Expression {
    Expression::Variable(Variable { value: text.to_string(), span })
}

#[test]
fn operators_bind_in_seven_levels() {
    assert_eq!(BinaryOperator::Or.precedence(), 0);
    assert_eq!(BinaryOperator::And.precedence(), 1);
    assert_eq!(BinaryOperator::Eq.precedence(), 2);
    assert_eq!(BinaryOperator::Neq.precedence(), 2);
    assert_eq!(BinaryOperator::Geq.precedence(), 3);
    assert_eq!(BinaryOperator::Gt.precedence(), 3);
    assert_eq!(BinaryOperator::Leq.precedence(), 3);
    assert_eq!(BinaryOperator::Lt.precedence(), 3);
    assert_eq!(BinaryOperator::Add.precedence(), 4);
    assert_eq!(BinaryOperator::Sub.precedence(), 4);
    assert_eq!(BinaryOperator::Mul.precedence(), 5);
    assert_eq!(BinaryOperator::Div.precedence(), 5);
    assert_eq!(BinaryOperator::Pow.precedence(), 6);
}

#[test]
fn a_type_is_shown_by_its_sort() {
    assert_eq!(Type::Basic(BasicType::U32(U32Type { span: at(0, 3) })).to_string(), "basic");
    assert_eq!(
        Type::Struct(StructType { variable: named("Point"), span: at(0, 5) }).to_string(),
        "struct"
    );
}

#[test]
fn a_literal_is_shown_as_it_is_written() {
    let u32_value = count("42");
    assert_eq!(u32_value.to_string(), "42");
    let field = Value::Field(Field {
        number: Number { value: "7".to_string(), span: at(0, 1) },
        ty: FieldType { span: at(1, 6) },
        span: at(0, 6),
    });
    assert_eq!(field.to_string(), "7");
    assert_eq!(*field.span(), at(0, 6));
    let boolean = Value::Boolean(Boolean { value: "true".to_string(), span: at(2, 6) });
    assert_eq!(boolean.to_string(), "true");
    assert_eq!(*boolean.span(), at(2, 6));
    assert_eq!(named("x").to_string(), "x");
}

#[test]
fn unary_operations_are_shown_with_their_operator() {
    let not = Expression::Not(NotExpression {
        operation: Not { span: at(0, 1) },
        expression: Box::new(variable("a", at(1, 2))),
        span: at(0, 2),
    });
    assert_eq!(not.to_string(), "!a");
    assert_eq!(*not.span(), at(0, 2));
    let increment = Expression::Increment(IncrementExpression {
        expression: Box::new(variable("a", at(0, 1))),
        operation: Increment { span: at(1, 3) },
        span: at(0, 3),
    });
    assert_eq!(increment.to_string(), "a++");
    let decrement = Expression::Decrement(DecrementExpression {
        expression: Box::new(variable("a", at(0, 1))),
        operation: Decrement { span: at(1, 3) },
        span: at(0, 3),
    });
    assert_eq!(decrement.to_string(), "a--");
}

#[test]
fn a_binary_operation_spans_its_operands() {
    let left = Box::new(variable("a", at(4, 5)));
    let right = Box::new(number("1", at(8, 9)));
    let sum = binary_expression(left, BinaryOperator::Add, right);
    assert_eq!(*sum.span(), at(4, 9));
    assert_eq!(
        *sum,
        Expression::Binary(BinaryExpression {
            operation: BinaryOperator::Add,
            left: Box::new(variable("a", at(4, 5))),
            right: Box::new(number("1", at(8, 9))),
            span: at(4, 9),
        })
    );
    assert_eq!(sum.to_string(), "a == 1");
    let built = Expression::binary(
        BinaryOperator::Pow,
        Box::new(variable("a", at(4, 5))),
        Box::new(number("1", at(8, 9))),
        at(0, 20),
    );
    assert_eq!(*built.span(), at(0, 20));
}

#[test]
fn a_choice_is_shown_between_its_words() {
    let choice = Expression::ternary(
        Box::new(variable("c", at(3, 4))),
        Box::new(number("1", at(10, 11))),
        Box::new(number("2", at(17, 18))),
        at(0, 21),
    );
    assert_eq!(choice.to_string(), "if c then 1 else 2 fi");
    assert_eq!(*choice.span(), at(0, 21));
    assert_eq!(
        choice,
        Expression::Ternary(TernaryExpression {
            first: Box::new(variable("c", at(3, 4))),
            second: Box::new(number("1", at(10, 11))),
            third: Box::new(number("2", at(17, 18))),
            span: at(0, 21),
        })
    );
}

#[test]
fn arrays_are_shown_item_by_item() {
    let array = Expression::ArrayInline(ArrayInlineExpression {
        expressions: vec![
            SpreadOrExpression::Expression(number("1", at(1, 2))),
            SpreadOrExpression::Spread(Spread { expression: variable("rest", at(7, 11)), span: at(4, 11) }),
            SpreadOrExpression::Expression(variable("b", at(13, 14))),
        ],
        span: at(0, 15),
    });
    assert_eq!(array.to_string(), "1, ...rest, b");
    let empty = Expression::ArrayInline(ArrayInlineExpression { expressions: Vec::new(), span: at(0, 2) });
    assert_eq!(empty.to_string(), "");
    let one = Expression::ArrayInline(ArrayInlineExpression {
        expressions: vec![SpreadOrExpression::Expression(number("9", at(1, 2)))],
        span: at(0, 3),
    });
    assert_eq!(one.to_string(), "9");
    let repeated = Expression::ArrayInitializer(ArrayInitializerExpression {
        expression: Box::new(SpreadOrExpression::Expression(number("0", at(1, 2)))),
        count: count("4"),
        span: at(0, 6),
    });
    assert_eq!(repeated.to_string(), "[0 ; 4]");
}

#[test]
fn structs_and_accesses_are_shown_by_a_notice() {
    let inline = Expression::StructInline(StructInlineExpression {
        variable: named("Point"),
        members: Vec::new(),
        span: at(0, 9),
    });
    assert_eq!(inline.to_string(), "inline struct display not impl Point");
    let postfix = Expression::Postfix(PostfixExpression {
        variable: named("a"),
        accesses: Vec::new(),
        span: at(0, 4),
    });
    assert_eq!(postfix.to_string(), "Postfix display not impl a");
    assert_eq!(*postfix.span(), at(0, 4));
}

#[test]
fn a_range_is_shown_with_two_dots() {
    let both = RangeOrExpression::Range(Range {
        from: Some(FromExpression(number("1", at(0, 1)))),
        to: Some(ToExpression(variable("n", at(3, 4)))),
        span: at(0, 4),
    });
    assert_eq!(both.to_string(), "1..n");
    let open = RangeOrExpression::Range(Range { from: None, to: None, span: at(0, 2) });
    assert_eq!(open.to_string(), "..");
    let from = RangeOrExpression::Range(Range {
        from: Some(FromExpression(number("2", at(0, 1)))),
        to: None,
        span: at(0, 3),
    });
    assert_eq!(from.to_string(), "2..");
    let index = RangeOrExpression::Expression(variable("i", at(0, 1)));
    assert_eq!(index.to_string(), "i");
}

#[test]
fn what_is_assigned_to_is_shown_with_its_accesses() {
    let plain = Assignee { variable: named("a"), accesses: Vec::new(), span: at(0, 1) };
    assert_eq!(plain.to_string(), "a");
    let array = AssigneeAccess::Array(ArrayAccess {
        expression: RangeOrExpression::Expression(number("0", at(2, 3))),
        span: at(1, 4),
    });
    assert_eq!(array.to_string(), "[0]");
    let member = AssigneeAccess::Member(MemberAccess { variable: named("x"), span: at(4, 6) });
    assert_eq!(member.to_string(), ".x");
    let both = Assignee { variable: named("a"), accesses: vec![array, member], span: at(0, 6) };
    assert_eq!(both.to_string(), "a[0], .x");
}

#[test]
fn statements_are_shown() {
    let assign = AssignStatement {
        assignee: Assignee { variable: named("a"), accesses: Vec::new(), span: at(0, 1) },
        expression: number("5", at(4, 5)),
        span: at(0, 5),
    };
    assert_eq!(assign.to_string(), "a = 5");
    assert_eq!(Statement::Assign(assign).to_string(), "a = 5");
    let definition = DefinitionStatement {
        ty: Type::Basic(BasicType::U32(U32Type { span: at(0, 3) })),
        variable: named("b"),
        expression: variable("a", at(8, 9)),
        span: at(0, 9),
    };
    assert_eq!(definition.to_string(), "basic b = a");
    assert_eq!(Statement::Definition(definition).to_string(), "basic b = a");
    let returned = ReturnStatement {
        expressions: vec![variable("a", at(7, 8)), number("1", at(10, 11))],
        span: at(0, 11),
    };
    assert_eq!(returned.to_string(), "a, 1");
    assert_eq!(Statement::Return(returned).to_string(), "a, 1");
    let nothing = ReturnStatement { expressions: Vec::new(), span: at(0, 6) };
    assert_eq!(nothing.to_string(), "");
}

#[test]
fn a_loop_is_shown_with_its_statements() {
    let empty = ForStatement {
        index: named("i"),
        start: number("0", at(9, 10)),
        stop: variable("n", at(12, 13)),
        statements: Vec::new(),
        span: at(0, 24),
    };
    assert_eq!(empty.to_string(), "for i in 0..n do [] endfor");
    assert_eq!(Statement::Iteration(empty).to_string(), "for i in 0..n do [] endfor");
    let body = || {
        vec![
            Statement::Return(ReturnStatement {
                expressions: vec![variable("i", at(20, 21))],
                span: at(13, 21),
            }),
            Statement::Assign(AssignStatement {
                assignee: Assignee { variable: named("a"), accesses: Vec::new(), span: at(23, 24) },
                expression: number("5", at(27, 28)),
                span: at(23, 28),
            }),
        ]
    };
    let full = ForStatement {
        index: named("j"),
        start: number("1", at(9, 10)),
        stop: number("4", at(12, 13)),
        statements: body(),
        span: at(0, 40),
    };
    let shown = full.to_string();
    assert_eq!(shown, format!("for j in 1..4 do {:#?} endfor", body()));
    assert!(shown.starts_with("for j in 1..4 do [\n    Return(\n        ReturnStatement {"));
    assert!(shown.contains("Assign(\n        AssignStatement {"));
    assert!(shown.ends_with("\n] endfor"));
}
