//! The expression node model: a closed set of variants that own their
//! sub-expressions. The nodes carry no behaviour of their own — every
//! traversal lives in a visitor.

use vstd::prelude::*;

use crate::tokens::{Lit, Token};

verus! {

/// An expression node; the tree under it is exclusively owned.
pub struct Expr {
    pub kind: ExprKind,
}

/// The closed set of expression variants: a binary operation, a
/// parenthesized group, a literal, and a unary operation.
pub enum ExprKind {
    Binary(Token, Box<Expr>, Box<Expr>),
    Grouping(Box<Expr>),
    Literal(Lit),
    Unary(Token, Box<Expr>),
}

} // verus!
