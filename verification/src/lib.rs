//! Two parts of a compiler for a language of circuits: the values of constants, with
//! the arithmetic of their native width, and the lowering of statements into
//! instruction text. A third part holds the syntax tree that the parser hands on.

pub mod arithmetic;
pub mod ast;
pub mod bitwise;
pub mod code_generation;
pub mod comparison;
pub mod decimal;
pub mod error;
pub mod group;
pub mod literal;
pub mod operand;
pub mod power;
pub mod shift;
pub mod span;
pub mod statement;
pub mod symbol_table;
pub mod types;
pub mod value;
