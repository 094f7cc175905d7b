//! The code generator: what it knows of the function that it lowers, and the
//! lowering of each statement.
//!
//! A statement is lowered by handing its expressions to the expression consumer
//! from left to right and putting together what comes back. The contract of each
//! lowering says which calls of the consumer were made, in which order and with
//! which arguments, and how the instructions are made of what the calls returned.

use crate::code_generation::consumer::{
    lowers, lowers_all, pair, pairs, writes, ExpressionConsumer, TypeFormatter,
};
use crate::code_generation::instruction::{
    assert_instructions, assert_true_instructions, assertion, comparison, finalize_instruction,
    handover, instructions_of, operands_of, output_instructions, outputs_text, resolve_visibility,
    resolved, update, update_instructions,
};
use crate::code_generation::sequence::{concatenated, join, lemma_joined_with_nothing};
use crate::code_generation::variable_mapping::{
    assigned, bind_tuple, bound_all, VariableMapping,
};
use crate::operand::{split, split_operand, texts};
use crate::statement::{
    AssertStatement, AssertVariant, AssignStatement, Block, DecrementStatement, Expression,
    ExpressionStatement, IncrementStatement, ReturnStatement, Statement,
};
use crate::symbol_table::{Output, SymbolTable};
use vstd::prelude::*;
use vstd::string::*;

verus! {

/// Whether `text` is the instructions of the comparison `name` of `left` and
/// `right`: the consumer lowers `left` and then `right`, and the instruction that
/// compares the two operands follows the instructions of both.
pub open spec fn compares<E, L: ExpressionConsumer<E>>(
    name: Seq<char>,
    variables: VariableMapping,
    before: L,
    left: Expression<E>,
    right: Expression<E>,
    after: L,
    text: Seq<char>,
) -> bool {
    exists|middle: L, first: (String, String), second: (String, String)|
        #![trigger
            lowers(before, variables, left, middle, first),
            lowers(middle, variables, right, after, second)
        ]
        {
            &&& lowers(before, variables, left, middle, first)
            &&& lowers(middle, variables, right, after, second)
            &&& text == comparison(name, pair(first), pair(second))
        }
}

/// Whether `text` is the instructions of the assertion `input`. An assertion of one
/// expression lowers it and compares its operand with `true`; an assertion of two
/// lowers the left one and then the right one, and compares their operands.
pub open spec fn asserts<E, L: ExpressionConsumer<E>>(
    variables: VariableMapping,
    before: L,
    input: AssertStatement<E>,
    after: L,
    text: Seq<char>,
) -> bool {
    match input.variant {
        AssertVariant::Assert(expression) => exists|lowered: (String, String)| #[trigger]
            lowers(before, variables, expression, after, lowered) && text == assertion(
                pair(lowered),
            ),
        AssertVariant::AssertEq(left, right) => compares(
            "assert.eq"@,
            variables,
            before,
            left,
            right,
            after,
            text,
        ),
        AssertVariant::AssertNeq(left, right) => compares(
            "assert.neq"@,
            variables,
            before,
            left,
            right,
            after,
            text,
        ),
    }
}

/// Whether `text` is the instructions of the update `verb` of the entry of
/// `mapping` at `index` by `amount`: the consumer lowers the index and then the
/// amount, and the instruction that updates follows the instructions of both.
pub open spec fn updates<E, L: ExpressionConsumer<E>>(
    verb: Seq<char>,
    mapping: Seq<char>,
    variables: VariableMapping,
    before: L,
    index: Expression<E>,
    amount: Expression<E>,
    after: L,
    text: Seq<char>,
) -> bool {
    exists|middle: L, first: (String, String), second: (String, String)|
        #![trigger
            lowers(before, variables, index, middle, first),
            lowers(middle, variables, amount, after, second)
        ]
        {
            &&& lowers(before, variables, index, middle, first)
            &&& lowers(middle, variables, amount, after, second)
            &&& text == update(verb, mapping, pair(first), pair(second))
        }
}

/// Whether `text` is the instructions of the assignment `input`, and `bound` the
/// bindings after it: the consumer lowers the value, what is assigned to is bound,
/// and the instructions are those of the value. There are no instructions where a
/// tuple has another number of variables than the operand has registers. An
/// assignment to anything but a variable, or a tuple of variables that takes the
/// results of a call, has no lowering.
pub open spec fn assigns<E, L: ExpressionConsumer<E>>(
    variables: VariableMapping,
    before: L,
    input: AssignStatement<E>,
    bound: Map<Seq<char>, Seq<char>>,
    after: L,
    text: Option<String>,
) -> bool {
    &&& input.assignable()
    &&& exists|lowered: (String, String)| #[trigger]
        lowers(before, variables, input.value, after, lowered) && assigned(
            variables@,
            input.place,
            lowered.0@,
            bound,
            text is Some,
        ) && (text is Some ==> text.unwrap()@ == lowered.1@)
}

/// Whether `text` is the instructions of the call that `input` is: the consumer
/// lowers the call, and its instructions are kept. An expression that is no call
/// has no instructions as a statement.
pub open spec fn calls<E, L: ExpressionConsumer<E>>(
    variables: VariableMapping,
    before: L,
    input: ExpressionStatement<E>,
    after: L,
    text: Seq<char>,
) -> bool {
    &&& input.expression is Call
    &&& exists|lowered: (String, String)| #[trigger]
        lowers(before, variables, input.expression, after, lowered) && text == lowered.1@
}

/// Whether the formatter `before` can write the type of `output` as `text` and be
/// `after` then. The type of an output of the program itself is written with its
/// resolved visibility; for a record of another program nothing is written, and the
/// text is empty.
pub open spec fn writes_output<T, L: TypeFormatter<T>>(
    before: L,
    output: Output<T>,
    is_transition: bool,
    in_finalize: bool,
    after: L,
    text: String,
) -> bool {
    match output {
        Output::Internal(output) => writes(
            before,
            output.type_,
            resolved(is_transition, in_finalize, output.mode),
            after,
            text,
        ),
        Output::External(_) => after == before && text@ == Seq::<char>::empty(),
    }
}

/// Whether the formatter `before` can write the types of the first `n` of
/// `outputs`, one after the other, as `types` and be `after` then.
pub open spec fn writes_all<T, L: TypeFormatter<T>>(
    before: L,
    outputs: Seq<Output<T>>,
    is_transition: bool,
    in_finalize: bool,
    n: int,
    after: L,
    types: Seq<String>,
) -> bool
    decreases n,
{
    if n <= 0 {
        after == before && types.len() == 0
    } else {
        &&& types.len() == n
        &&& exists|middle: L|
            writes_all(
                before,
                outputs,
                is_transition,
                in_finalize,
                n - 1,
                middle,
                types.drop_last(),
            ) && #[trigger] writes_output(
                middle,
                outputs[n - 1],
                is_transition,
                in_finalize,
                after,
                types.last(),
            )
    }
}

/// True of every code generator and every consumer. In `lowering_first` it stands
/// beside the two as they are between two statements of a block, and says nothing
/// of them: it is the one place there that is no lowering in turn, so that a proof
/// can name the two by it.
pub open spec fn halfway<G, L>(generator: G, consumer: L) -> bool {
    true
}

/// True of all that it is given. In `lowering_block` it stands beside the code
/// generator and the consumer as they are in front of the statement that has no
/// instructions, the number of the statements in front of that one and their
/// instructions, and says nothing of them: a proof names the four by it.
pub open spec fn stopped<G, L>(n: int, generator: G, consumer: L, parts: Seq<String>) -> bool {
    true
}

/// The view of a text that may be missing.
pub open spec fn text_of(text: Option<String>) -> Option<Seq<char>> {
    match text {
        Some(text) => Some(text@),
        None => None,
    }
}

impl<E> AssignStatement<E> {
    /// Whether code can be generated for the assignment: it assigns to a variable,
    /// or the results of a call to a tuple of variables.
    pub open spec fn assignable(self) -> bool {
        ||| self.place is Identifier
        ||| self.place.is_tuple_of_identifiers() && self.value is Call
    }

    /// Whether code can be generated for the assignment.
    pub fn is_assignable(&self) -> (b: bool)
        ensures
            b == self.assignable(),
    {
        match &self.place {
            Expression::Identifier(_) => true,
            Expression::Tuple(elements) => {
                let called = match &self.value {
                    Expression::Call(_) => true,
                    _ => false,
                };
                called && all_identifiers(elements)
            },
            _ => false,
        }
    }
}

/// Whether each of `elements` is a variable.
fn all_identifiers<E>(elements: &Vec<Expression<E>>) -> (b: bool)
    ensures
        b == Expression::Tuple(*elements).is_tuple_of_identifiers(),
{
    let mut i: usize = 0;
    while i < elements.len()
        invariant
            i <= elements.len(),
            forall|j: int| 0 <= j < i ==> elements[j] is Identifier,
        decreases elements.len() - i,
    {
        match &elements[i] {
            Expression::Identifier(_) => {},
            _ => {
                assert(!(Expression::Tuple(*elements)->Tuple_0[i as int] is Identifier));
                return false;
            },
        }
        i = i + 1;
    }
    true
}

/// Whether code can be generated for each of `statements`.
fn all_lowerable<E>(statements: &Vec<Statement<E>>, outputs_known: bool) -> (b: bool)
    ensures
        b == forall|i: int|
            0 <= i < statements.len() ==> (#[trigger] statements[i]).lowerable(outputs_known),
    decreases statements,
{
    let mut i: usize = 0;
    while i < statements.len()
        invariant
            i <= statements.len(),
            forall|j: int| 0 <= j < i ==> (#[trigger] statements[j]).lowerable(outputs_known),
        decreases statements.len() - i,
    {
        if !statements[i].is_lowerable(outputs_known) {
            return false;
        }
        i = i + 1;
    }
    true
}

impl<E> Statement<E> {
    /// Whether code can be generated for the statement, where `outputs_known` says
    /// that the outputs of the function in which it stands are known. No conditional,
    /// console statement, definition or loop is left in it; each assignment in it is
    /// to a variable, or of a call to a tuple of variables; each expression that
    /// stands as a statement is a call; and a value is returned only from a function
    /// whose outputs are known.
    pub open spec fn lowerable(self, outputs_known: bool) -> bool
        decreases self,
    {
        match self {
            Statement::Assert(_) => true,
            Statement::Assign(assign) => assign.assignable(),
            Statement::Block(block) => forall|i: int|
                0 <= i < block.statements.len() ==> (#[trigger] block.statements[i]).lowerable(
                    outputs_known,
                ),
            Statement::Conditional(_) => false,
            Statement::Console(_) => false,
            Statement::Decrement(_) => true,
            Statement::Definition(_) => false,
            Statement::Expression(statement) => statement.expression is Call,
            Statement::Increment(_) => true,
            Statement::Iteration(_) => false,
            Statement::Return(statement) => statement.expression is Unit || outputs_known,
        }
    }

    /// Whether code can be generated for the statement, where `outputs_known` says
    /// that the outputs of the function in which it stands are known.
    pub fn is_lowerable(&self, outputs_known: bool) -> (b: bool)
        ensures
            b == self.lowerable(outputs_known),
        decreases self,
    {
        match self {
            Statement::Assert(_) => true,
            Statement::Assign(assign) => assign.is_assignable(),
            Statement::Block(block) => all_lowerable(&block.statements, outputs_known),
            Statement::Conditional(_) => false,
            Statement::Console(_) => false,
            Statement::Decrement(_) => true,
            Statement::Definition(_) => false,
            Statement::Expression(statement) => match &statement.expression {
                Expression::Call(_) => true,
                _ => false,
            },
            Statement::Increment(_) => true,
            Statement::Iteration(_) => false,
            Statement::Return(statement) => match &statement.expression {
                Expression::Unit => true,
                _ => outputs_known,
            },
        }
    }
}

/// What code generation knows while it lowers the statements of one function.
pub struct CodeGenerator<'a, T> {
    /// The functions of the program.
    pub symbol_table: &'a SymbolTable<T>,
    /// The operands that the variables of the function are bound to.
    pub variable_mapping: VariableMapping,
    /// The name of the function.
    pub current_function: Option<String>,
    /// Whether the statements stand in the finalize block of the function.
    pub in_finalize: bool,
    /// Whether the function is a transition.
    pub is_transition_function: bool,
}

impl<'a, T> CodeGenerator<'a, T> {
    /// The outputs that a return statement hands out: those of the finalize block of
    /// the current function inside that block, those of the function outside it.
    /// There are none to be had where no function is current, where the program has
    /// no function of that name, and inside a finalize block of which nothing is
    /// known.
    pub open spec fn outputs(self) -> Option<Seq<Output<T>>> {
        match self.current_function {
            None => None,
            Some(name) => match self.symbol_table.function(name@) {
                None => None,
                Some(symbol) => if self.in_finalize {
                    match symbol.finalize {
                        Some(finalize) => Some(finalize.output@),
                        None => None,
                    }
                } else {
                    Some(symbol.output@)
                },
            },
        }
    }

    /// Whether `self` and `other` are at the same place of the same function: they
    /// differ in the bindings of the variables at most.
    pub open spec fn same_place(self, other: Self) -> bool {
        &&& self.symbol_table == other.symbol_table
        &&& self.current_function == other.current_function
        &&& self.in_finalize == other.in_finalize
        &&& self.is_transition_function == other.is_transition_function
    }

    /// A code generator for the program with the functions `symbol_table`, outside
    /// every function.
    pub fn new(symbol_table: &'a SymbolTable<T>) -> (generator: Self)
        ensures
            generator.symbol_table == symbol_table,
            generator.variable_mapping@ == Map::<Seq<char>, Seq<char>>::empty(),
            generator.current_function is None,
            !generator.in_finalize,
            !generator.is_transition_function,
    {
        CodeGenerator {
            symbol_table,
            variable_mapping: VariableMapping::new(),
            current_function: None,
            in_finalize: false,
            is_transition_function: false,
        }
    }

    /// Whether the outputs that a return statement hands out are known.
    pub fn knows_outputs(&self) -> (b: bool)
        ensures
            b == (self.outputs() is Some),
    {
        match &self.current_function {
            None => false,
            Some(name) => match self.symbol_table.lookup_fn_symbol(name) {
                None => false,
                Some(symbol) => !self.in_finalize || symbol.finalize.is_some(),
            },
        }
    }

    /// The outputs that a return statement hands out.
    fn active_outputs(&self) -> (outputs: &'a Vec<Output<T>>)
        requires
            self.outputs() is Some,
        ensures
            outputs@ == self.outputs().unwrap(),
    {
        let name = match &self.current_function {
            Some(name) => name,
            None => unreached(),
        };
        let symbol = match self.symbol_table.lookup_fn_symbol(name) {
            Some(symbol) => symbol,
            None => unreached(),
        };
        if self.in_finalize {
            match &symbol.finalize {
                Some(finalize) => &finalize.output,
                None => unreached(),
            }
        } else {
            &symbol.output
        }
    }

    /// Whether `text` is the instructions of the return `input`, where the consumer
    /// lowers the returned expression to `value` and is `valued` then, writes the
    /// types of the outputs as `types` and is `typed` then, and lowers the arguments
    /// of the finalize block to `arguments` and is `after` then.
    ///
    /// A return of the unit expression hands out nothing, and nothing is lowered or
    /// written for it. Of any other expression the registers are handed out as the
    /// outputs, by one instruction each behind the instructions of the expression. If
    /// there are not as many registers as outputs, there are no instructions, and
    /// nothing more is written or lowered. The instructions of the arguments and the
    /// finalize instruction come last.
    pub open spec fn hands_out_with<E, L: ExpressionConsumer<E> + TypeFormatter<T>>(
        self,
        before: L,
        input: ReturnStatement<E>,
        value: (String, String),
        valued: L,
        types: Seq<String>,
        typed: L,
        arguments: Seq<(String, String)>,
        after: L,
        text: Option<String>,
    ) -> bool {
        if input.expression is Unit {
            &&& valued == before
            &&& typed == valued
            &&& self.hands_over(typed, input, arguments, after)
            &&& text is Some
            &&& text.unwrap()@ == self.handed_over(input, arguments)
        } else {
            let outputs = self.outputs().unwrap();
            let registers = split(value.0@, ' ');
            &&& lowers(before, self.variable_mapping, input.expression, valued, value)
            &&& if registers.len() == outputs.len() {
                &&& writes_all(
                    valued,
                    outputs,
                    self.is_transition_function,
                    self.in_finalize,
                    outputs.len() as int,
                    typed,
                    types,
                )
                &&& self.hands_over(typed, input, arguments, after)
                &&& text is Some
                &&& text.unwrap()@ == value.1@ + outputs_text(
                    registers,
                    outputs,
                    texts(types),
                    outputs.len() as int,
                ) + self.handed_over(input, arguments)
            } else {
                &&& after == valued
                &&& text is None
            }
        }
    }

    /// Whether the consumer `before` lowers the arguments of the finalize block of
    /// `input`, if there is one, to `arguments` and is `after` then.
    pub open spec fn hands_over<E, L: ExpressionConsumer<E>>(
        self,
        before: L,
        input: ReturnStatement<E>,
        arguments: Seq<(String, String)>,
        after: L,
    ) -> bool {
        match input.finalize_arguments {
            Some(expressions) => lowers_all(
                before,
                self.variable_mapping,
                expressions@,
                expressions.len() as int,
                after,
                arguments,
            ),
            None => after == before,
        }
    }

    /// The instructions that hand over to the finalize block of `input`, if there is
    /// one, where its arguments are lowered to `arguments`.
    pub open spec fn handed_over<E>(
        self,
        input: ReturnStatement<E>,
        arguments: Seq<(String, String)>,
    ) -> Seq<char> {
        match input.finalize_arguments {
            Some(_) => handover(pairs(arguments)),
            None => Seq::empty(),
        }
    }

    /// Whether `text` is the instructions of the return `input`, for which the
    /// consumer goes from `before` to `after`.
    pub open spec fn hands_out<E, L: ExpressionConsumer<E> + TypeFormatter<T>>(
        self,
        before: L,
        input: ReturnStatement<E>,
        after: L,
        text: Option<String>,
    ) -> bool {
        exists|
            value: (String, String),
            valued: L,
            types: Seq<String>,
            typed: L,
            arguments: Seq<(String, String)>,
        | #[trigger]
            self.hands_out_with(before, input, value, valued, types, typed, arguments, after, text)
    }

    /// Whether the lowering of `input` by the code generator `before` with the
    /// consumer `consumer` gives `text`, and leaves the code generator as `after` and
    /// the consumer as `consumed`. Only an assignment changes the bindings of the
    /// variables; only an assignment and a return can be without instructions. A
    /// conditional, a console statement, a definition and a loop have no lowering.
    pub open spec fn lowering<E, L: ExpressionConsumer<E> + TypeFormatter<T>>(
        before: Self,
        consumer: L,
        input: Statement<E>,
        after: Self,
        consumed: L,
        text: Option<String>,
    ) -> bool
        decreases input, 0int,
    {
        &&& after.same_place(before)
        &&& match input {
            Statement::Assert(statement) => {
                &&& after.variable_mapping == before.variable_mapping
                &&& text is Some
                &&& asserts(before.variable_mapping, consumer, statement, consumed, text.unwrap()@)
            },
            Statement::Assign(statement) => assigns(
                before.variable_mapping,
                consumer,
                *statement,
                after.variable_mapping@,
                consumed,
                text,
            ),
            Statement::Block(block) => Self::lowering_block(
                before,
                consumer,
                block.statements,
                after,
                consumed,
                text,
            ),
            Statement::Decrement(statement) => {
                &&& after.variable_mapping == before.variable_mapping
                &&& text is Some
                &&& updates(
                    "decrement"@,
                    statement.mapping.name@,
                    before.variable_mapping,
                    consumer,
                    statement.index,
                    statement.amount,
                    consumed,
                    text.unwrap()@,
                )
            },
            Statement::Expression(statement) => {
                &&& after.variable_mapping == before.variable_mapping
                &&& text is Some
                &&& calls(before.variable_mapping, consumer, statement, consumed, text.unwrap()@)
            },
            Statement::Increment(statement) => {
                &&& after.variable_mapping == before.variable_mapping
                &&& text is Some
                &&& updates(
                    "increment"@,
                    statement.mapping.name@,
                    before.variable_mapping,
                    consumer,
                    statement.index,
                    statement.amount,
                    consumed,
                    text.unwrap()@,
                )
            },
            Statement::Return(statement) => {
                &&& after.variable_mapping == before.variable_mapping
                &&& before.hands_out(consumer, statement, consumed, text)
            },
            _ => false,
        }
    }

    /// Whether the lowering of the first `n` of `statements`, one after the other,
    /// gives `parts`, and leaves the code generator as `after` and the consumer as
    /// `consumed`.
    pub open spec fn lowering_first<E, L: ExpressionConsumer<E> + TypeFormatter<T>>(
        before: Self,
        consumer: L,
        statements: Vec<Statement<E>>,
        n: int,
        after: Self,
        consumed: L,
        parts: Seq<String>,
    ) -> bool
        decreases statements, 1int, n,
    {
        if n <= 0 || n > statements.len() {
            after == before && consumed == consumer && parts.len() == 0
        } else {
            &&& parts.len() == n
            &&& exists|middle: Self, between: L| #[trigger]
                halfway(middle, between) && Self::lowering_first(
                    before,
                    consumer,
                    statements,
                    n - 1,
                    middle,
                    between,
                    parts.drop_last(),
                ) && Self::lowering(
                    middle,
                    between,
                    statements[n - 1],
                    after,
                    consumed,
                    Some(parts.last()),
                )
        }
    }

    /// Whether the lowering of `statements`, one after the other, gives `text`, and
    /// leaves the code generator as `after` and the consumer as `consumed`. The
    /// instructions are those of the statements in a row. Where a statement has no
    /// instructions, there are none, and the statements behind it are left alone.
    pub open spec fn lowering_block<E, L: ExpressionConsumer<E> + TypeFormatter<T>>(
        before: Self,
        consumer: L,
        statements: Vec<Statement<E>>,
        after: Self,
        consumed: L,
        text: Option<String>,
    ) -> bool
        decreases statements, 2int,
    {
        match text {
            Some(text) => exists|parts: Seq<String>|
                Self::lowering_first(
                    before,
                    consumer,
                    statements,
                    statements.len() as int,
                    after,
                    consumed,
                    parts,
                ) && text@ == #[trigger] concatenated(texts(parts)),
            None => exists|n: int, middle: Self, between: L, parts: Seq<String>|
                0 <= n < statements.len() && #[trigger] stopped(n, middle, between, parts)
                    && Self::lowering_first(before, consumer, statements, n, middle, between, parts)
                    && Self::lowering(middle, between, statements[n], after, consumed, None),
        }
    }

    /// Lowers an assertion. The asserted expressions are lowered from left to right;
    /// the instruction that compares their operands follows their instructions. An
    /// assertion of one expression compares it with `true`.
    pub fn consume_assert<E, L: ExpressionConsumer<E>>(
        &self,
        lowerer: L,
        input: &AssertStatement<E>,
    ) -> (r: (L, String))
        ensures
            asserts(self.variable_mapping, lowerer, *input, r.0, r.1@),
    {
        let ghost before = lowerer;
        match &input.variant {
            AssertVariant::Assert(expression) => {
                let (lowerer, lowered) = lowerer.consume_expression(
                    &self.variable_mapping,
                    expression,
                );
                assert(lowers(before, self.variable_mapping, *expression, lowerer, lowered));
                (lowerer, assert_true_instructions(lowered))
            },
            AssertVariant::AssertEq(left, right) => {
                let (lowerer, first) = lowerer.consume_expression(&self.variable_mapping, left);
                let ghost middle = lowerer;
                let (lowerer, second) = lowerer.consume_expression(&self.variable_mapping, right);
                assert(lowers(before, self.variable_mapping, *left, middle, first));
                assert(lowers(middle, self.variable_mapping, *right, lowerer, second));
                (lowerer, assert_instructions("assert.eq", first, second))
            },
            AssertVariant::AssertNeq(left, right) => {
                let (lowerer, first) = lowerer.consume_expression(&self.variable_mapping, left);
                let ghost middle = lowerer;
                let (lowerer, second) = lowerer.consume_expression(&self.variable_mapping, right);
                assert(lowers(before, self.variable_mapping, *left, middle, first));
                assert(lowers(middle, self.variable_mapping, *right, lowerer, second));
                (lowerer, assert_instructions("assert.neq", first, second))
            },
        }
    }

    /// Lowers an assignment: the value is lowered, and what is assigned to is bound. A
    /// variable is bound to the operand of the value. The variables of a tuple are
    /// bound to the registers of the operand, from left to right; where the call gave
    /// another number of registers than the tuple has variables, nothing is bound and
    /// there are no instructions. Else the instructions are those of the value.
    pub fn consume_assign<E, L: ExpressionConsumer<E>>(
        &mut self,
        lowerer: L,
        input: &AssignStatement<E>,
    ) -> (r: (L, Option<String>))
        requires
            input.assignable(),
        ensures
            final(self).same_place(*old(self)),
            assigns(
                old(self).variable_mapping,
                lowerer,
                *input,
                final(self).variable_mapping@,
                r.0,
                r.1,
            ),
    {
        let ghost before = lowerer;
        let (lowerer, lowered) = lowerer.consume_expression(&self.variable_mapping, &input.value);
        let ghost written = lowered;
        let (operand, instructions) = lowered;
        let text = match &input.place {
            Expression::Identifier(identifier) => {
                self.variable_mapping.insert(identifier.name.clone(), operand);
                Some(instructions)
            },
            Expression::Tuple(elements) => {
                let registers = split_operand(operand.as_str());
                if registers.len() == elements.len() {
                    bind_tuple(&mut self.variable_mapping, elements, registers);
                    Some(instructions)
                } else {
                    None
                }
            },
            _ => unreached(),
        };
        assert(lowers(before, old(self).variable_mapping, input.value, lowerer, written));
        (lowerer, text)
    }

    /// Lowers a decrement of an entry of a mapping: the index is lowered, then the
    /// amount; the instruction that decrements follows their instructions.
    pub fn consume_decrement<E, L: ExpressionConsumer<E>>(
        &self,
        lowerer: L,
        input: &DecrementStatement<E>,
    ) -> (r: (L, String))
        ensures
            updates(
                "decrement"@,
                input.mapping.name@,
                self.variable_mapping,
                lowerer,
                input.index,
                input.amount,
                r.0,
                r.1@,
            ),
    {
        let ghost before = lowerer;
        let (lowerer, index) = lowerer.consume_expression(&self.variable_mapping, &input.index);
        let ghost middle = lowerer;
        let (lowerer, amount) = lowerer.consume_expression(&self.variable_mapping, &input.amount);
        assert(lowers(before, self.variable_mapping, input.index, middle, index));
        assert(lowers(middle, self.variable_mapping, input.amount, lowerer, amount));
        (lowerer, update_instructions("decrement", input.mapping.name.as_str(), index, amount))
    }

    /// Lowers an increment of an entry of a mapping: the index is lowered, then the
    /// amount; the instruction that increments follows their instructions.
    pub fn consume_increment<E, L: ExpressionConsumer<E>>(
        &self,
        lowerer: L,
        input: &IncrementStatement<E>,
    ) -> (r: (L, String))
        ensures
            updates(
                "increment"@,
                input.mapping.name@,
                self.variable_mapping,
                lowerer,
                input.index,
                input.amount,
                r.0,
                r.1@,
            ),
    {
        let ghost before = lowerer;
        let (lowerer, index) = lowerer.consume_expression(&self.variable_mapping, &input.index);
        let ghost middle = lowerer;
        let (lowerer, amount) = lowerer.consume_expression(&self.variable_mapping, &input.amount);
        assert(lowers(before, self.variable_mapping, input.index, middle, index));
        assert(lowers(middle, self.variable_mapping, input.amount, lowerer, amount));
        (lowerer, update_instructions("increment", input.mapping.name.as_str(), index, amount))
    }

    /// Lowers a call that stands as a statement: the call is lowered, its
    /// instructions are kept, and its operand is dropped.
    pub fn consume_expression_statement<E, L: ExpressionConsumer<E>>(
        &self,
        lowerer: L,
        input: &ExpressionStatement<E>,
    ) -> (r: (L, String))
        requires
            input.expression is Call,
        ensures
            calls(self.variable_mapping, lowerer, *input, r.0, r.1@),
    {
        let ghost before = lowerer;
        let (lowerer, lowered) = lowerer.consume_expression(
            &self.variable_mapping,
            &input.expression,
        );
        assert(lowers(before, self.variable_mapping, input.expression, lowerer, lowered));
        (lowerer, lowered.1)
    }

    /// Writes the types of `outputs`, one after the other.
    fn write_types<L: TypeFormatter<T>>(
        &self,
        formatter: L,
        outputs: &Vec<Output<T>>,
    ) -> (r: (L, Vec<String>))
        ensures
            writes_all(
                formatter,
                outputs@,
                self.is_transition_function,
                self.in_finalize,
                outputs.len() as int,
                r.0,
                r.1@,
            ),
    {
        let ghost before = formatter;
        let mut formatter = formatter;
        let mut types: Vec<String> = Vec::new();
        let mut i: usize = 0;
        while i < outputs.len()
            invariant
                i <= outputs.len(),
                writes_all(
                    before,
                    outputs@,
                    self.is_transition_function,
                    self.in_finalize,
                    i as int,
                    formatter,
                    types@,
                ),
            decreases outputs.len() - i,
        {
            let ghost middle = formatter;
            let ghost written = types@;
            match &outputs[i] {
                Output::Internal(output) => {
                    let visibility = resolve_visibility(
                        self.is_transition_function,
                        self.in_finalize,
                        output.mode,
                    );
                    let (after, text) = formatter.consume_type_with_visibility(
                        &output.type_,
                        visibility,
                    );
                    assert(writes(middle, output.type_, visibility, after, text));
                    formatter = after;
                    types.push(text);
                },
                Output::External(_) => {
                    types.push(String::new());
                },
            }
            assert(types@.drop_last() =~= written);
            assert(writes_output(
                middle,
                outputs@[i as int],
                self.is_transition_function,
                self.in_finalize,
                formatter,
                types@.last(),
            ));
            i = i + 1;
        }
        (formatter, types)
    }

    /// Lowers the arguments of a finalize block, one after the other. Returns their
    /// operands, and their instructions in a row.
    fn lower_arguments<E, L: ExpressionConsumer<E>>(
        &self,
        lowerer: L,
        arguments: &Vec<Expression<E>>,
    ) -> (r: (L, Vec<String>, String, Ghost<Seq<(String, String)>>))
        ensures
            lowers_all(
                lowerer,
                self.variable_mapping,
                arguments@,
                arguments.len() as int,
                r.0,
                r.3@,
            ),
            texts(r.1@) == operands_of(pairs(r.3@)),
            r.2@ == concatenated(instructions_of(pairs(r.3@))),
    {
        let ghost before = lowerer;
        let ghost mut lowered: Seq<(String, String)> = Seq::empty();
        let mut lowerer = lowerer;
        let mut operands: Vec<String> = Vec::new();
        let mut instructions = String::new();
        let mut i: usize = 0;
        assert(texts(operands@) =~= operands_of(pairs(lowered)));
        assert(instructions_of(pairs(lowered)) =~= Seq::empty());
        while i < arguments.len()
            invariant
                i <= arguments.len(),
                lowers_all(before, self.variable_mapping, arguments@, i as int, lowerer, lowered),
                texts(operands@) == operands_of(pairs(lowered)),
                instructions@ == concatenated(instructions_of(pairs(lowered))),
            decreases arguments.len() - i,
        {
            let ghost middle = lowerer;
            let ghost done = lowered;
            let ghost named = operands@;
            let (after, argument) = lowerer.consume_expression(
                &self.variable_mapping,
                &arguments[i],
            );
            lowerer = after;
            proof {
                lowered = lowered.push(argument);
                assert(lowered.drop_last() =~= done);
                assert(instructions_of(pairs(lowered)).drop_last() =~= instructions_of(
                    pairs(done),
                ));
                assert(operands_of(pairs(lowered)) =~= operands_of(pairs(done)).push(argument.0@));
            }
            let (operand, text) = argument;
            instructions.append(text.as_str());
            operands.push(operand);
            assert(texts(operands@) =~= texts(named).push(operand@));
            assert(lowers(
                middle,
                self.variable_mapping,
                arguments@[i as int],
                lowerer,
                lowered.last(),
            ));
            i = i + 1;
        }
        (lowerer, operands, instructions, Ghost(lowered))
    }

    /// Lowers a return. A return of the unit expression hands out nothing. Of any
    /// other expression the registers are handed out as the outputs of the function,
    /// one instruction for each behind the instructions of the expression; the type
    /// of an output of the program itself is written with its resolved visibility.
    /// Where the expression gave another number of registers than the function has
    /// outputs, there are no instructions. The arguments of a handover to the
    /// finalize block are lowered from left to right; their instructions and the
    /// finalize instruction come last.
    pub fn consume_return<E, L: ExpressionConsumer<E> + TypeFormatter<T>>(
        &self,
        lowerer: L,
        input: &ReturnStatement<E>,
    ) -> (r: (L, Option<String>))
        requires
            input.expression is Unit || self.outputs() is Some,
        ensures
            self.hands_out(lowerer, *input, r.0, r.1),
    {
        let ghost before = lowerer;
        let ghost mut value: (String, String) = arbitrary();
        let ghost mut valued = lowerer;
        let ghost mut types: Seq<String> = Seq::empty();
        let ghost mut arguments: Seq<(String, String)> = Seq::empty();
        let (lowerer, mut instructions) = match &input.expression {
            Expression::Unit => (lowerer, String::new()),
            expression => {
                let (lowerer, lowered) = lowerer.consume_expression(
                    &self.variable_mapping,
                    expression,
                );
                proof {
                    value = lowered;
                    valued = lowerer;
                }
                assert(lowers(before, self.variable_mapping, input.expression, valued, value));
                let (operand, mut instructions) = lowered;
                let outputs = self.active_outputs();
                let registers = split_operand(operand.as_str());
                if registers.len() != outputs.len() {
                    assert(self.hands_out_with(
                        before,
                        *input,
                        value,
                        valued,
                        types,
                        valued,
                        arguments,
                        lowerer,
                        None,
                    ));
                    return (lowerer, None);
                }
                let (lowerer, written) = self.write_types(lowerer, outputs);
                proof {
                    types = written@;
                }
                let lines = output_instructions(registers, outputs, &written);
                instructions.append(lines.as_str());
                (lowerer, instructions)
            },
        };
        let ghost typed = lowerer;
        let ghost body = instructions@;
        let lowerer = match &input.finalize_arguments {
            Some(expressions) => {
                let (lowerer, operands, rest, Ghost(lowered)) = self.lower_arguments(
                    lowerer,
                    expressions,
                );
                proof {
                    arguments = lowered;
                }
                instructions.append(rest.as_str());
                let line = finalize_instruction(&operands);
                instructions.append(line.as_str());
                assert(instructions@ =~= body + handover(pairs(arguments)));
                lowerer
            },
            None => {
                assert(instructions@ =~= body + Seq::<char>::empty());
                lowerer
            },
        };
        let text = Some(instructions);
        assert(self.hands_out_with(
            before,
            *input,
            value,
            valued,
            types,
            typed,
            arguments,
            lowerer,
            text,
        ));
        (lowerer, text)
    }

    /// Lowers the statements of a block in their order. The instructions are those
    /// of the statements in a row. There are none where one of the statements has
    /// none; the statements behind that one are then left alone.
    pub fn consume_block<E, L: ExpressionConsumer<E> + TypeFormatter<T>>(
        &mut self,
        lowerer: L,
        input: &Block<E>,
    ) -> (r: (L, Option<String>))
        requires
            Statement::Block(*input).lowerable(old(self).outputs() is Some),
        ensures
            final(self).same_place(*old(self)),
            Self::lowering_block(*old(self), lowerer, input.statements, *final(self), r.0, r.1),
        decreases *input, 1int,
    {
        let mut consumer = lowerer;
        let mut parts: Vec<String> = Vec::new();
        let mut i: usize = 0;
        while i < input.statements.len()
            invariant
                i <= input.statements.len(),
                parts.len() == i,
                self.same_place(*old(self)),
                Statement::Block(*input).lowerable(old(self).outputs() is Some),
                Self::lowering_first(
                    *old(self),
                    lowerer,
                    input.statements,
                    i as int,
                    *self,
                    consumer,
                    parts@,
                ),
            decreases input.statements.len() - i,
        {
            proof {
                let known = old(self).outputs() is Some;
                let whole = Statement::Block(*input);
                assert(whole.lowerable(known));
                assert(whole->Block_0.statements[i as int].lowerable(known));
            }
            let ghost middle = *self;
            let ghost between = consumer;
            let ghost done = parts@;
            let (after, text) = self.consume_statement(consumer, &input.statements[i]);
            consumer = after;
            match text {
                Some(part) => {
                    parts.push(part);
                    assert(parts@.drop_last() =~= done);
                    assert(halfway(middle, between));
                },
                None => {
                    assert(stopped(i as int, middle, between, done));
                    return (consumer, None);
                },
            }
            i = i + 1;
        }
        proof {
            reveal_strlit("");
            assert(""@ =~= Seq::<char>::empty());
            lemma_joined_with_nothing(texts(parts@));
        }
        let text = join(&parts, "");
        assert(text@ == concatenated(texts(parts@)));
        (consumer, Some(text))
    }

    /// Lowers a statement: an assertion, an assignment, a block, a decrement, an
    /// increment, a call that stands as a statement, or a return. There are no
    /// instructions where an assignment or a return in it has none.
    pub fn consume_statement<E, L: ExpressionConsumer<E> + TypeFormatter<T>>(
        &mut self,
        lowerer: L,
        input: &Statement<E>,
    ) -> (r: (L, Option<String>))
        requires
            input.lowerable(old(self).outputs() is Some),
        ensures
            Self::lowering(*old(self), lowerer, *input, *final(self), r.0, r.1),
        decreases *input, 0int,
    {
        match input {
            Statement::Assert(statement) => {
                let (lowerer, text) = self.consume_assert(lowerer, statement);
                (lowerer, Some(text))
            },
            Statement::Assign(statement) => self.consume_assign(lowerer, statement),
            Statement::Block(block) => self.consume_block(lowerer, block),
            Statement::Decrement(statement) => {
                let (lowerer, text) = self.consume_decrement(lowerer, statement);
                (lowerer, Some(text))
            },
            Statement::Expression(statement) => {
                let (lowerer, text) = self.consume_expression_statement(lowerer, statement);
                (lowerer, Some(text))
            },
            Statement::Increment(statement) => {
                let (lowerer, text) = self.consume_increment(lowerer, statement);
                (lowerer, Some(text))
            },
            Statement::Return(statement) => self.consume_return(lowerer, statement),
            _ => unreached(),
        }
    }
}

/// An expression that stands as a statement has a lowering only if it is a call.
/// The consumer then lowers the call; the instructions of the statement are those of
/// the call, its operand is left out, and no variable is bound.
pub proof fn lemma_only_a_call_is_a_statement<
    'a,
    T,
    E,
    L: ExpressionConsumer<E> + TypeFormatter<T>,
>(
    before: CodeGenerator<'a, T>,
    consumer: L,
    input: ExpressionStatement<E>,
    after: CodeGenerator<'a, T>,
    consumed: L,
    text: Option<String>,
)
    requires
        CodeGenerator::lowering(
            before,
            consumer,
            Statement::Expression(input),
            after,
            consumed,
            text,
        ),
    ensures
        input.expression is Call,
        text is Some,
        after.variable_mapping == before.variable_mapping,
        exists|lowered: (String, String)| #[trigger]
            lowers(consumer, before.variable_mapping, input.expression, consumed, lowered)
                && text.unwrap()@ == lowered.1@,
{
}

/// An assignment has a lowering only if it is to a variable, or of a call to a tuple
/// of variables. For a tuple it has instructions if and only if the call gave as many
/// registers as the tuple has variables; the variables are then bound to the
/// registers from left to right, and else no variable is bound.
pub proof fn lemma_assignment_binds<'a, T, E, L: ExpressionConsumer<E> + TypeFormatter<T>>(
    before: CodeGenerator<'a, T>,
    consumer: L,
    input: AssignStatement<E>,
    after: CodeGenerator<'a, T>,
    consumed: L,
    text: Option<String>,
)
    requires
        CodeGenerator::lowering(
            before,
            consumer,
            Statement::Assign(Box::new(input)),
            after,
            consumed,
            text,
        ),
    ensures
        input.assignable(),
        exists|lowered: (String, String)| #[trigger]
            lowers(consumer, before.variable_mapping, input.value, consumed, lowered) && {
                let registers = split(lowered.0@, ' ');
                let names = input.place.tuple_names();
                &&& input.place is Identifier ==> text is Some
                &&& input.place is Identifier ==> after.variable_mapping@
                    == before.variable_mapping@.insert(
                    input.place->Identifier_0.name@,
                    lowered.0@,
                )
                &&& input.place is Tuple ==> (text is Some <==> registers.len() == names.len())
                &&& input.place is Tuple && text is Some ==> after.variable_mapping@ == bound_all(
                    before.variable_mapping@,
                    names,
                    registers,
                )
                &&& input.place is Tuple && text is None ==> after.variable_mapping@
                    == before.variable_mapping@
                &&& text is Some ==> text.unwrap()@ == lowered.1@
            },
{
}

/// A return of an expression other than the unit expression has instructions if
/// and only if the expression gave as many registers as the function has outputs.
/// A return of the unit expression always has instructions.
pub proof fn lemma_return_hands_out_every_output<
    'a,
    T,
    E,
    L: ExpressionConsumer<E> + TypeFormatter<T>,
>(
    generator: CodeGenerator<'a, T>,
    consumer: L,
    input: ReturnStatement<E>,
    consumed: L,
    text: Option<String>,
)
    requires
        generator.hands_out(consumer, input, consumed, text),
    ensures
        input.expression is Unit ==> text is Some,
        !(input.expression is Unit) ==> exists|value: (String, String), valued: L| #[trigger]
            lowers(consumer, generator.variable_mapping, input.expression, valued, value) && (
            text is Some <==> split(value.0@, ' ').len() == generator.outputs().unwrap().len()),
{
}

} // verus!
