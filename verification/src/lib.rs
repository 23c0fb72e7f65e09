//! Lexical front end of a small dynamically-typed scripting language:
//! a scanner that turns source text into classified tokens, the token and
//! expression-node data model, and a visitor-based traversal with a
//! parenthesizing printer as its reference implementation.

pub mod ast_printer;
pub mod error;
pub mod expr;
pub mod scan;
pub mod scan_laws;
pub mod text;
pub mod tokens;
pub mod visit;
