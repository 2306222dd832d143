//! Front end of a small algebraic-data-type definition language: a verified
//! lexer that turns source text into tokens, and a verified recursive-descent
//! parser that builds definitions of sum and product types with arbitrary
//! nesting and named type references.

pub mod ast;
pub mod laws;
pub mod lexer;
