//! Sequences that are put together and walked in step.

use crate::operand::texts;
use itertools::Itertools;
use vstd::prelude::*;

verus! {

/// The texts of `parts` in a row, with `separator` between each two.
pub open spec fn joined(parts: Seq<Seq<char>>, separator: Seq<char>) -> Seq<char>
    decreases parts.len(),
{
    if parts.len() == 0 {
        Seq::empty()
    } else if parts.len() == 1 {
        parts[0]
    } else {
        joined(parts.drop_last(), separator) + separator + parts.last()
    }
}

/// The texts of `parts` in a row.
pub open spec fn concatenated(parts: Seq<Seq<char>>) -> Seq<char>
    decreases parts.len(),
{
    if parts.len() == 0 {
        Seq::empty()
    } else {
        concatenated(parts.drop_last()) + parts.last()
    }
}

/// Texts that are joined with nothing between them stand in a row.
pub proof fn lemma_joined_with_nothing(parts: Seq<Seq<char>>)
    ensures
        joined(parts, Seq::empty()) == concatenated(parts),
    decreases parts.len(),
{
    if parts.len() == 1 {
        assert(parts.drop_last() =~= Seq::empty());
        assert(concatenated(parts.drop_last()) =~= Seq::empty());
        assert(concatenated(parts) =~= parts[0]);
    } else if parts.len() > 1 {
        lemma_joined_with_nothing(parts.drop_last());
        assert(joined(parts, Seq::empty()) =~= concatenated(parts));
    }
}

/// `Itertools::join` of itertools, on the texts of a vector: the texts in their
/// order, each shown as it is, with `separator` between each two and none at either
/// end. No text gives the empty text.
#[verifier::external_body]
pub(crate) fn join(parts: &Vec<String>, separator: &str) -> (text: String)
    ensures
        text@ == joined(texts(parts@), separator@),
{
    parts.iter().join(separator)
}

/// `Itertools::zip_eq` of itertools, on two vectors of one length: the pairs of the
/// items at the same place, in their order. The outside function ends the program
/// where one side ends before the other; the lengths are therefore to be equal.
#[verifier::external_body]
pub(crate) fn zip_eq<'a, A, B>(left: Vec<A>, right: &'a Vec<B>) -> (pairs: Vec<(A, &'a B)>)
    requires
        left.len() == right.len(),
    ensures
        pairs.len() == left.len(),
        forall|i: int|
            0 <= i < pairs.len() ==> (#[trigger] pairs[i]).0 == left[i] && *pairs[i].1 == right[i],
{
    left.into_iter().zip_eq(right.iter()).collect()
}

} // verus!
