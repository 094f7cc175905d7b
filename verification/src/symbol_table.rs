//! What code generation reads of the functions of a program.

use crate::span::Span;
use crate::statement::Identifier;
use vstd::prelude::*;

verus! {

/// The visibility of an input or an output of a function.
#[derive(Clone, Copy, Debug, PartialEq, Eq, Structural)]
pub enum Mode {
    /// No visibility: none was declared, or none applies.
    Unspecified,
    Constant,
    Private,
    Public,
}

/// An output of a function, declared in the program itself. Its type is of a type
/// `T` that this library does not look into.
#[derive(Clone, Debug, PartialEq, Eq)]
pub struct FunctionOutput<T> {
    /// The declared visibility.
    pub mode: Mode,
    /// The type of the output.
    pub type_: T,
    /// Where the output is declared.
    pub span: Span,
}

/// An output of a function that is a record of another program.
#[derive(Clone, Debug, PartialEq, Eq)]
pub struct External {
    /// The name of the output in the function's body.
    pub identifier: Identifier,
    /// The name of the other program.
    pub program_name: Identifier,
    /// The name of the record type in the other program.
    pub record: Identifier,
    /// Where the output is declared.
    pub span: Span,
}

/// An output of a function.
#[derive(Clone, Debug, PartialEq, Eq)]
pub enum Output<T> {
    Internal(FunctionOutput<T>),
    External(External),
}

/// What is known of the finalize block of a function.
#[derive(Clone, Debug, PartialEq, Eq)]
pub struct FinalizeData<T> {
    /// The outputs of the block, in the order of their declaration.
    pub output: Vec<Output<T>>,
}

/// What is known of a function.
#[derive(Clone, Debug, PartialEq, Eq)]
pub struct FunctionSymbol<T> {
    /// The name of the function.
    pub name: String,
    /// The outputs of the function, in the order of their declaration.
    pub output: Vec<Output<T>>,
    /// The finalize block of the function, if it has one.
    pub finalize: Option<FinalizeData<T>>,
}

/// The functions of a program.
#[derive(Clone, Debug, PartialEq, Eq)]
pub struct SymbolTable<T> {
    /// The functions, in the order in which they were added.
    pub functions: Vec<FunctionSymbol<T>>,
}

impl<T> SymbolTable<T> {
    /// The position of the first function named `name` among the first `n`
    /// functions, if one of them has that name.
    pub open spec fn position(self, name: Seq<char>, n: int) -> Option<int>
        decreases n,
    {
        if n <= 0 {
            None
        } else if self.position(name, n - 1) is Some {
            self.position(name, n - 1)
        } else if self.functions[n - 1].name@ == name {
            Some(n - 1)
        } else {
            None
        }
    }

    /// The first function named `name`, if there is one.
    pub open spec fn function(self, name: Seq<char>) -> Option<FunctionSymbol<T>> {
        match self.position(name, self.functions.len() as int) {
            Some(i) => Some(self.functions[i]),
            None => None,
        }
    }

    /// The first function named `name`, if there is one.
    pub fn lookup_fn_symbol(&self, name: &String) -> (symbol: Option<&FunctionSymbol<T>>)
        ensures
            match symbol {
                Some(symbol) => self.function(name@) == Some(*symbol),
                None => self.function(name@) is None,
            },
    {
        let mut i: usize = 0;
        while i < self.functions.len()
            invariant
                i <= self.functions.len(),
                self.position(name@, i as int) is None,
            decreases self.functions.len() - i,
        {
            if self.functions[i].name == *name {
                proof {
                    self.lemma_position_stays(name@, i as int + 1, self.functions.len() as int);
                }
                return Some(&self.functions[i]);
            }
            i = i + 1;
        }
        None
    }

    /// A position that was found among the first `n` functions is the one that is
    /// found among more of them.
    proof fn lemma_position_stays(self, name: Seq<char>, n: int, m: int)
        requires
            n <= m,
            self.position(name, n) is Some,
        ensures
            self.position(name, m) == self.position(name, n),
        decreases m,
    {
        if n < m {
            self.lemma_position_stays(name, n, m - 1);
        }
    }
}

} // verus!
