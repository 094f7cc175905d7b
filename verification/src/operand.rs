//! Operands: the names of the registers that hold what an expression computes.
//!
//! An expression with one result has one register. An expression with several
//! results has one register for each, and its operand is their names with one space
//! between each two.

use vstd::prelude::*;
use vstd::string::*;

verus! {

/// The pieces of `text` between the occurrences of `separator`. A text without the
/// separator is one piece; two separators in a row have an empty piece between them.
pub open spec fn split(text: Seq<char>, separator: char) -> Seq<Seq<char>>
    decreases text.len(),
{
    if text.len() == 0 {
        seq![Seq::empty()]
    } else {
        let before = split(text.drop_last(), separator);
        if text.last() == separator {
            before.push(Seq::empty())
        } else {
            before.update(before.len() - 1, before.last().push(text.last()))
        }
    }
}

/// The views of a sequence of texts.
pub open spec fn texts(strings: Seq<String>) -> Seq<Seq<char>> {
    strings.map_values(|s: String| s@)
}

/// How often `separator` stands in `text`.
pub open spec fn occurrences(text: Seq<char>, separator: char) -> nat
    decreases text.len(),
{
    if text.len() == 0 {
        0
    } else if text.last() == separator {
        occurrences(text.drop_last(), separator) + 1
    } else {
        occurrences(text.drop_last(), separator)
    }
}

/// A text has one piece more than it has separators.
pub proof fn lemma_split_has_one_piece_more(text: Seq<char>, separator: char)
    ensures
        split(text, separator).len() == occurrences(text, separator) + 1,
    decreases text.len(),
{
    if text.len() > 0 {
        lemma_split_has_one_piece_more(text.drop_last(), separator);
    }
}

/// The registers of an operand, from left to right.
pub fn split_operand(operand: &str) -> (registers: Vec<String>)
    ensures
        texts(registers@) == split(operand@, ' '),
{
    let length = operand.unicode_len();
    let mut registers: Vec<String> = Vec::new();
    let mut start: usize = 0;
    let mut i: usize = 0;
    assert(operand@.take(0) =~= Seq::empty());
    assert(texts(registers@).push(operand@.subrange(0, 0)) =~= split(operand@.take(0), ' '));
    while i < length
        invariant
            length == operand@.len(),
            start <= i <= length,
            texts(registers@).push(operand@.subrange(start as int, i as int)) == split(
                operand@.take(i as int),
                ' ',
            ),
        decreases length - i,
    {
        let ghost before = split(operand@.take(i as int), ' ');
        let ghost done = texts(registers@);
        let ghost piece = operand@.subrange(start as int, i as int);
        assert(operand@.take(i + 1).drop_last() =~= operand@.take(i as int));
        assert(operand@.take(i + 1).last() == operand@[i as int]);
        assert(before.last() == piece);
        if operand.get_char(i) == ' ' {
            registers.push(String::from_str(operand.substring_char(start, i)));
            start = i + 1;
            assert(texts(registers@) =~= done.push(piece));
            assert(operand@.subrange(start as int, i + 1) =~= Seq::empty());
        } else {
            assert(operand@.subrange(start as int, i + 1) =~= piece.push(operand@[i as int]));
            assert(done.push(piece.push(operand@[i as int])) =~= before.update(
                before.len() - 1,
                before.last().push(operand@[i as int]),
            ));
        }
        i = i + 1;
    }
    let ghost done = texts(registers@);
    registers.push(String::from_str(operand.substring_char(start, length)));
    assert(texts(registers@) =~= done.push(operand@.subrange(start as int, length as int)));
    assert(operand@.take(length as int) =~= operand@);
    assert(texts(registers@) =~= split(operand@, ' '));
    registers
}

} // verus!
