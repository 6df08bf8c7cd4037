//! A recursive-descent syntax parser for a small imperative toy language.
//!
//! The input is a finite, pre-tokenized sequence of [`Token`] values; the
//! output is an abstract syntax tree together with the index of the first
//! unconsumed token, or a descriptive syntax error.

pub mod ast;
pub mod grammar;
pub mod laws;
pub mod numeral;
pub mod parser;
pub mod render;
pub mod token;

pub use ast::AstNode;
pub use ast::SpecAst;
pub use token::SpecToken;
pub use token::Token;

pub use parser::parse;
pub use parser::parse_comparison;
pub use parser::parse_expression;
pub use parser::parse_factor;
pub use parser::parse_program;
pub use parser::parse_statement;
pub use parser::parse_statement_sequence;
pub use parser::parse_term;
