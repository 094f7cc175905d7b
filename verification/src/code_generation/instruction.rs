//! The lines of instruction text that the statements give.
//!
//! An instruction stands on a line of its own, behind four spaces, and ends in a
//! semicolon.

use crate::code_generation::sequence::{concatenated, join, lemma_joined_with_nothing, zip_eq};
use crate::operand::texts;
use crate::symbol_table::{Mode, Output};
use vstd::prelude::*;
use vstd::string::*;

verus! {

/// The instruction that compares two operands: `    name left right;`.
pub open spec fn assert_line(name: Seq<char>, left: Seq<char>, right: Seq<char>) -> Seq<char> {
    "    "@ + name + " "@ + left + " "@ + right + ";\n"@
}

/// The instruction that changes an entry of a mapping:
/// `    verb mapping[index] by amount;`.
pub open spec fn update_line(
    verb: Seq<char>,
    mapping: Seq<char>,
    index: Seq<char>,
    amount: Seq<char>,
) -> Seq<char> {
    "    "@ + verb + " "@ + mapping + "["@ + index + "] by "@ + amount + ";\n"@
}

/// The instruction that hands out an operand as an output of a type:
/// `    output operand as type;`.
pub open spec fn output_line(operand: Seq<char>, type_: Seq<char>) -> Seq<char> {
    "    output "@ + operand + " as "@ + type_ + ";\n"@
}

/// The instruction that hands out an operand as a record of another program:
/// `    output operand as program.aleo/record.record;`.
pub open spec fn external_output_line(
    operand: Seq<char>,
    program: Seq<char>,
    record: Seq<char>,
) -> Seq<char> {
    "    output "@ + operand + " as "@ + program + ".aleo/"@ + record + ".record;\n"@
}

/// The operands of a finalize instruction, each behind a space.
pub open spec fn spaced(operands: Seq<Seq<char>>) -> Seq<char>
    decreases operands.len(),
{
    if operands.len() == 0 {
        Seq::empty()
    } else {
        spaced(operands.drop_last()) + " "@ + operands.last()
    }
}

/// The instruction that hands over to the finalize block with `operands`:
/// `    finalize a b;`.
pub open spec fn finalize_line(operands: Seq<Seq<char>>) -> Seq<char> {
    "    finalize"@ + spaced(operands) + ";\n"@
}

/// The visibility that an output declared with `declared` has: none in a function
/// that is no transition; in a transition the declared one, and where none was
/// declared, public in the finalize block and private outside it.
pub open spec fn resolved(is_transition: bool, in_finalize: bool, declared: Mode) -> Mode {
    if !is_transition {
        Mode::Unspecified
    } else if declared != Mode::Unspecified {
        declared
    } else if in_finalize {
        Mode::Public
    } else {
        Mode::Private
    }
}

/// The instruction that compares two operands.
pub fn assert_instruction(name: &str, left: &str, right: &str) -> (line: String)
    ensures
        line@ == assert_line(name@, left@, right@),
{
    let mut line = String::from_str("    ");
    line.append(name);
    line.append(" ");
    line.append(left);
    line.append(" ");
    line.append(right);
    line.append(";\n");
    line
}

/// The instruction that changes an entry of a mapping.
pub fn update_instruction(verb: &str, mapping: &str, index: &str, amount: &str) -> (line: String)
    ensures
        line@ == update_line(verb@, mapping@, index@, amount@),
{
    let mut line = String::from_str("    ");
    line.append(verb);
    line.append(" ");
    line.append(mapping);
    line.append("[");
    line.append(index);
    line.append("] by ");
    line.append(amount);
    line.append(";\n");
    line
}

/// The instruction that hands out an operand as an output of a type.
pub fn output_instruction(operand: &str, type_: &str) -> (line: String)
    ensures
        line@ == output_line(operand@, type_@),
{
    let mut line = String::from_str("    output ");
    line.append(operand);
    line.append(" as ");
    line.append(type_);
    line.append(";\n");
    line
}

/// The instruction that hands out an operand as a record of another program.
pub fn external_output_instruction(operand: &str, program: &str, record: &str) -> (line: String)
    ensures
        line@ == external_output_line(operand@, program@, record@),
{
    let mut line = String::from_str("    output ");
    line.append(operand);
    line.append(" as ");
    line.append(program);
    line.append(".aleo/");
    line.append(record);
    line.append(".record;\n");
    line
}

/// The visibility that an output declared with `declared` has.
pub fn resolve_visibility(is_transition: bool, in_finalize: bool, declared: Mode) -> (mode: Mode)
    ensures
        mode == resolved(is_transition, in_finalize, declared),
{
    if is_transition {
        if in_finalize {
            match declared {
                Mode::Unspecified => Mode::Public,
                mode => mode,
            }
        } else {
            match declared {
                Mode::Unspecified => Mode::Private,
                mode => mode,
            }
        }
    } else {
        Mode::Unspecified
    }
}

/// The instructions of the comparison `name` of two lowered expressions, each given
/// as its operand and its instructions: those of the left one, those of the right
/// one, and the instruction that compares the two operands.
pub open spec fn comparison(
    name: Seq<char>,
    left: (Seq<char>, Seq<char>),
    right: (Seq<char>, Seq<char>),
) -> Seq<char> {
    left.1 + right.1 + assert_line(name, left.0, right.0)
}

/// The instructions of the assertion that a lowered expression, given as its operand
/// and its instructions, is true: its instructions, and the instruction that
/// compares its operand with `true`.
pub open spec fn assertion(lowered: (Seq<char>, Seq<char>)) -> Seq<char> {
    lowered.1 + assert_line("assert.eq"@, lowered.0, "true"@)
}

/// The instructions of the update `verb` of the entry of `mapping` at a lowered
/// index by a lowered amount: those of the index, those of the amount, and the
/// instruction that updates.
pub open spec fn update(
    verb: Seq<char>,
    mapping: Seq<char>,
    index: (Seq<char>, Seq<char>),
    amount: (Seq<char>, Seq<char>),
) -> Seq<char> {
    index.1 + amount.1 + update_line(verb, mapping, index.0, amount.0)
}

/// The instruction that hands out `register` as `output`, where `type_` is the
/// text of the type of an output of the program itself.
pub open spec fn output_text<T>(
    register: Seq<char>,
    output: Output<T>,
    type_: Seq<char>,
) -> Seq<char> {
    match output {
        Output::Internal(_) => output_line(register, type_),
        Output::External(external) => external_output_line(
            register,
            external.program_name.name@,
            external.record.name@,
        ),
    }
}

/// The instructions that hand out the first `n` of `registers` as the first `n` of
/// `outputs`, one instruction for each, in their order.
pub open spec fn outputs_text<T>(
    registers: Seq<Seq<char>>,
    outputs: Seq<Output<T>>,
    types: Seq<Seq<char>>,
    n: int,
) -> Seq<char>
    decreases n,
{
    if n <= 0 {
        Seq::empty()
    } else {
        outputs_text(registers, outputs, types, n - 1) + output_text(
            registers[n - 1],
            outputs[n - 1],
            types[n - 1],
        )
    }
}

/// The operands of lowered expressions, each given as its operand and its
/// instructions.
pub open spec fn operands_of(lowered: Seq<(Seq<char>, Seq<char>)>) -> Seq<Seq<char>> {
    lowered.map_values(|l: (Seq<char>, Seq<char>)| l.0)
}

/// The instructions of lowered expressions, each given as its operand and its
/// instructions.
pub open spec fn instructions_of(lowered: Seq<(Seq<char>, Seq<char>)>) -> Seq<Seq<char>> {
    lowered.map_values(|l: (Seq<char>, Seq<char>)| l.1)
}

/// The instructions that hand over to the finalize block with lowered arguments:
/// the instructions of the arguments in their order, and the finalize instruction
/// with their operands.
pub open spec fn handover(arguments: Seq<(Seq<char>, Seq<char>)>) -> Seq<char> {
    concatenated(instructions_of(arguments)) + finalize_line(operands_of(arguments))
}

/// The instructions of a comparison of two lowered expressions.
pub fn assert_instructions(
    name: &str,
    left: (String, String),
    right: (String, String),
) -> (text: String)
    ensures
        text@ == comparison(name@, (left.0@, left.1@), (right.0@, right.1@)),
{
    let (left_operand, left_instructions) = left;
    let (right_operand, right_instructions) = right;
    let line = assert_instruction(name, left_operand.as_str(), right_operand.as_str());
    let mut text = left_instructions;
    text.append(right_instructions.as_str());
    text.append(line.as_str());
    text
}

/// The instructions of the assertion that a lowered expression is true.
pub fn assert_true_instructions(lowered: (String, String)) -> (text: String)
    ensures
        text@ == assertion((lowered.0@, lowered.1@)),
{
    let (operand, instructions) = lowered;
    let line = assert_instruction("assert.eq", operand.as_str(), "true");
    let mut text = instructions;
    text.append(line.as_str());
    text
}

/// The instructions of an update of an entry of a mapping.
pub fn update_instructions(
    verb: &str,
    mapping: &str,
    index: (String, String),
    amount: (String, String),
) -> (text: String)
    ensures
        text@ == update(verb@, mapping@, (index.0@, index.1@), (amount.0@, amount.1@)),
{
    let (index_operand, index_instructions) = index;
    let (amount_operand, amount_instructions) = amount;
    let line = update_instruction(verb, mapping, index_operand.as_str(), amount_operand.as_str());
    let mut text = index_instructions;
    text.append(amount_instructions.as_str());
    text.append(line.as_str());
    text
}

/// The instruction that hands over to the finalize block with `operands`.
pub fn finalize_instruction(operands: &Vec<String>) -> (line: String)
    ensures
        line@ == finalize_line(texts(operands@)),
{
    let mut line = String::from_str("    finalize");
    let mut i: usize = 0;
    assert(texts(operands@).take(0) =~= Seq::empty());
    assert(line@ =~= "    finalize"@ + spaced(texts(operands@).take(0)));
    while i < operands.len()
        invariant
            i <= operands.len(),
            line@ == "    finalize"@ + spaced(texts(operands@).take(i as int)),
        decreases operands.len() - i,
    {
        line.append(" ");
        line.append(operands[i].as_str());
        proof {
            let all = texts(operands@);
            assert(all.take(i + 1).drop_last() =~= all.take(i as int));
            assert(all.take(i + 1).last() == operands[i as int]@);
            assert(line@ =~= "    finalize"@ + spaced(all.take(i + 1)));
        }
        i = i + 1;
    }
    assert(texts(operands@).take(operands.len() as int) =~= texts(operands@));
    line.append(";\n");
    line
}

/// The instructions that hand out `registers` as `outputs`, where `types` holds at
/// the place of each output of the program itself the text of its type.
pub fn output_instructions<T>(
    registers: Vec<String>,
    outputs: &Vec<Output<T>>,
    types: &Vec<String>,
) -> (text: String)
    requires
        registers.len() == outputs.len(),
        types.len() == outputs.len(),
    ensures
        text@ == outputs_text(texts(registers@), outputs@, texts(types@), outputs.len() as int),
{
    let ghost operands = texts(registers@);
    let pairs = zip_eq(registers, outputs);
    let mut lines: Vec<String> = Vec::new();
    let mut i: usize = 0;
    while i < pairs.len()
        invariant
            i <= pairs.len(),
            pairs.len() == outputs.len(),
            types.len() == outputs.len(),
            operands.len() == outputs.len(),
            lines.len() == i,
            forall|j: int|
                0 <= j < pairs.len() ==> (#[trigger] pairs[j]).0@ == operands[j] && *pairs[j].1
                    == outputs[j],
            concatenated(texts(lines@)) == outputs_text(
                operands,
                outputs@,
                texts(types@),
                i as int,
            ),
        decreases pairs.len() - i,
    {
        let ghost before = texts(lines@);
        let line = match pairs[i].1 {
            Output::Internal(_) => output_instruction(pairs[i].0.as_str(), types[i].as_str()),
            Output::External(external) => external_output_instruction(
                pairs[i].0.as_str(),
                external.program_name.name.as_str(),
                external.record.name.as_str(),
            ),
        };
        lines.push(line);
        proof {
            assert(texts(lines@).drop_last() =~= before);
        }
        i = i + 1;
    }
    proof {
        reveal_strlit("");
        assert(""@ =~= Seq::<char>::empty());
        lemma_joined_with_nothing(texts(lines@));
    }
    join(&lines, "")
}

} // verus!
