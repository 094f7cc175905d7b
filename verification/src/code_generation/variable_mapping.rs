//! The operands that the variables of a function are bound to.

use crate::code_generation::sequence::zip_eq;
use crate::operand::{split, texts};
use crate::statement::Expression;
use vstd::prelude::*;

verus! {

/// The bindings of the variables of one function, in the order in which they were
/// made. A variable that is bound again has its latest binding.
pub struct VariableMapping {
    /// The bindings: each the name of a variable and its operand.
    pub entries: Vec<(String, String)>,
}

impl VariableMapping {
    /// The operand that the last binding of `name` among `entries` gives it, if there
    /// is one.
    pub open spec fn bound(entries: Seq<(String, String)>, name: Seq<char>) -> Option<Seq<char>>
        decreases entries.len(),
    {
        if entries.len() == 0 {
            None
        } else if entries.last().0@ == name {
            Some(entries.last().1@)
        } else {
            Self::bound(entries.drop_last(), name)
        }
    }

    /// No bindings.
    pub fn new() -> (mapping: VariableMapping)
        ensures
            mapping@ == Map::<Seq<char>, Seq<char>>::empty(),
    {
        let mapping = VariableMapping { entries: Vec::new() };
        assert(mapping@ =~= Map::<Seq<char>, Seq<char>>::empty());
        mapping
    }

    /// Binds the variable `name` to `operand`.
    pub fn insert(&mut self, name: String, operand: String)
        ensures
            final(self)@ == old(self)@.insert(name@, operand@),
    {
        let ghost before = self.entries@;
        self.entries.push((name, operand));
        assert(self.entries@.drop_last() =~= before);
        assert(self@ =~= old(self)@.insert(name@, operand@));
    }

    /// The operand that the variable `name` is bound to, if it is bound.
    pub fn get(&self, name: &String) -> (operand: Option<&String>)
        ensures
            match operand {
                Some(operand) => self@.contains_key(name@) && self@[name@] == operand@,
                None => !self@.contains_key(name@),
            },
    {
        let mut i: usize = self.entries.len();
        assert(self.entries@.take(i as int) =~= self.entries@);
        while i > 0
            invariant
                i <= self.entries.len(),
                Self::bound(self.entries@, name@) == Self::bound(
                    self.entries@.take(i as int),
                    name@,
                ),
            decreases i,
        {
            i = i - 1;
            assert(self.entries@.take(i + 1).drop_last() =~= self.entries@.take(i as int));
            if self.entries[i].0 == *name {
                return Some(&self.entries[i].1);
            }
        }
        None
    }
}

impl View for VariableMapping {
    type V = Map<Seq<char>, Seq<char>>;

    open spec fn view(&self) -> Map<Seq<char>, Seq<char>> {
        Map::new(
            |name: Seq<char>| Self::bound(self.entries@, name) is Some,
            |name: Seq<char>| Self::bound(self.entries@, name).unwrap(),
        )
    }
}

/// The bindings `bindings` after each of `names` has been bound to the operand at
/// its place in `operands`, from left to right.
pub open spec fn bound_all(
    bindings: Map<Seq<char>, Seq<char>>,
    names: Seq<Seq<char>>,
    operands: Seq<Seq<char>>,
) -> Map<Seq<char>, Seq<char>>
    decreases names.len(),
{
    if names.len() == 0 {
        bindings
    } else {
        bound_all(bindings, names.drop_last(), operands.drop_last()).insert(
            names.last(),
            operands.last(),
        )
    }
}

/// Whether the bindings `after` are what an assignment to `place` of a value with
/// the operand `operand` makes of the bindings `before`, and `done` says whether
/// it could be made.
pub open spec fn assigned<E>(
    before: Map<Seq<char>, Seq<char>>,
    place: Expression<E>,
    operand: Seq<char>,
    after: Map<Seq<char>, Seq<char>>,
    done: bool,
) -> bool {
    match place {
        Expression::Identifier(identifier) => done && after == before.insert(
            identifier.name@,
            operand,
        ),
        Expression::Tuple(elements) => if split(operand, ' ').len() == elements.len() {
            done && after == bound_all(before, place.tuple_names(), split(operand, ' '))
        } else {
            !done && after == before
        },
        _ => false,
    }
}

/// The variables that are bound from left to right have the operands at their
/// places: a name that does not come again further right is bound to the operand at
/// its place.
pub proof fn lemma_bound_in_order(
    bindings: Map<Seq<char>, Seq<char>>,
    names: Seq<Seq<char>>,
    operands: Seq<Seq<char>>,
    i: int,
)
    requires
        names.len() == operands.len(),
        0 <= i < names.len(),
        forall|j: int| i < j < names.len() ==> names[j] != names[i],
    ensures
        bound_all(bindings, names, operands).contains_key(names[i]),
        bound_all(bindings, names, operands)[names[i]] == operands[i],
    decreases names.len(),
{
    if i < names.len() - 1 {
        lemma_bound_in_order(bindings, names.drop_last(), operands.drop_last(), i);
    }
}

/// The variables that are bound from left to right leave every other variable as it
/// was.
pub proof fn lemma_bound_leaves_the_rest(
    bindings: Map<Seq<char>, Seq<char>>,
    names: Seq<Seq<char>>,
    operands: Seq<Seq<char>>,
    name: Seq<char>,
)
    requires
        forall|j: int| 0 <= j < names.len() ==> names[j] != name,
    ensures
        bound_all(bindings, names, operands).contains_key(name) == bindings.contains_key(name),
        bindings.contains_key(name) ==> bound_all(bindings, names, operands)[name]
            == bindings[name],
    decreases names.len(),
{
    if names.len() > 0 {
        lemma_bound_leaves_the_rest(bindings, names.drop_last(), operands.drop_last(), name);
    }
}

/// An assignment to a tuple of variables is made if and only if the operand of the
/// value has as many registers as the tuple has variables. If it is made, the
/// variables are bound to the registers from left to right; if it is not, no
/// variable is bound.
pub proof fn lemma_tuple_assignment<E>(
    before: Map<Seq<char>, Seq<char>>,
    place: Expression<E>,
    operand: Seq<char>,
    after: Map<Seq<char>, Seq<char>>,
    done: bool,
)
    requires
        place is Tuple,
        assigned(before, place, operand, after, done),
    ensures
        done <==> split(operand, ' ').len() == place.tuple_names().len(),
        done ==> after == bound_all(before, place.tuple_names(), split(operand, ' ')),
        !done ==> after == before,
{
}

/// Binds the variables of a tuple to registers, from left to right.
pub fn bind_tuple<E>(
    mapping: &mut VariableMapping,
    elements: &Vec<Expression<E>>,
    registers: Vec<String>,
)
    requires
        Expression::Tuple(*elements).is_tuple_of_identifiers(),
        registers.len() == elements.len(),
    ensures
        final(mapping)@ == bound_all(
            old(mapping)@,
            Expression::Tuple(*elements).tuple_names(),
            texts(registers@),
        ),
{
    let ghost names = Expression::Tuple(*elements).tuple_names();
    let ghost operands = texts(registers@);
    let pairs = zip_eq(registers, elements);
    let mut i: usize = 0;
    assert(names.take(0) =~= Seq::empty());
    while i < pairs.len()
        invariant
            i <= pairs.len(),
            pairs.len() == elements.len(),
            names.len() == elements.len(),
            operands.len() == elements.len(),
            Expression::Tuple(*elements).is_tuple_of_identifiers(),
            names == Expression::Tuple(*elements).tuple_names(),
            forall|j: int|
                0 <= j < pairs.len() ==> (#[trigger] pairs[j]).0@ == operands[j] && *pairs[j].1
                    == elements[j],
            mapping@ == bound_all(old(mapping)@, names.take(i as int), operands.take(i as int)),
        decreases pairs.len() - i,
    {
        match pairs[i].1 {
            Expression::Identifier(identifier) => {
                mapping.insert(identifier.name.clone(), pairs[i].0.clone());
            },
            _ => {
                assert(Expression::Tuple(*elements)->Tuple_0[i as int] is Identifier);
                assert(*pairs[i as int].1 == elements[i as int]);
                assert(false);
            },
        }
        proof {
            assert(names.take(i + 1).drop_last() =~= names.take(i as int));
            assert(operands.take(i + 1).drop_last() =~= operands.take(i as int));
            assert(names.take(i + 1).last() == names[i as int]);
            assert(operands.take(i + 1).last() == operands[i as int]);
        }
        i = i + 1;
    }
    assert(names.take(elements.len() as int) =~= names);
    assert(operands.take(elements.len() as int) =~= operands);
}

} // verus!
