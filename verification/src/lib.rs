//! An arithmetic expression evaluator: a position-tracking lexer, a
//! recursive-descent parser and a tree-walking interpreter with scoped
//! variable bindings and located diagnostics.
//!
//! The library performs no floating-point arithmetic itself. A float value is
//! held as its IEEE-754 bit pattern, and the results of float operations are
//! read from a [`floats::FloatTable`] that the caller fills in: a function
//! that meets an operation missing from the table stops and names it.

pub mod text;
pub mod position;
pub mod floats;
pub mod token;
pub mod symbols;
pub mod number;
pub mod context;
pub mod errors;
pub mod lexer;
pub mod parser;
pub mod interpeter;
pub mod finshell;
