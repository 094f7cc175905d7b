//! The lowering of statements into instruction text.

pub mod consumer;
pub mod generator;
pub mod instruction;
pub mod sequence;
pub mod variable_mapping;
