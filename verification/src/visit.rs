//! The visitor contract: one operation per expression variant, dispatched
//! through the node's own `accept`. New traversals implement the trait
//! without touching the node definitions.
//!
//! Each executable method comes with a specification method stating what
//! must hold of its result; `accept` then guarantees the matching one for
//! the variant it dispatched.

use vstd::prelude::*;

use crate::expr::{Expr, ExprKind};
use crate::tokens::{Lit, Token};

verus! {

/// A traversal over expression trees with result type `R`. Implementors
/// define the four `*_post` predicates — what their result means for each
/// variant — and prove their executable methods against them.
pub trait Visitor<R>: Sized {
    /// What must hold of the result of visiting a binary node.
    spec fn binary_post(&self, operator: Token, lhs: Expr, rhs: Expr, out: R) -> bool;

    /// What must hold of the result of visiting a grouping node.
    spec fn grouping_post(&self, inner: Expr, out: R) -> bool;

    /// What must hold of the result of visiting a literal node.
    spec fn literal_post(&self, value: Lit, out: R) -> bool;

    /// What must hold of the result of visiting a unary node.
    spec fn unary_post(&self, operator: Token, operand: Expr, out: R) -> bool;

    fn visit_binary(&self, operator: &Token, lhs: &Expr, rhs: &Expr) -> (out: R)
        ensures
            self.binary_post(*operator, *lhs, *rhs, out),
    ;

    fn visit_grouping(&self, inner: &Expr) -> (out: R)
        ensures
            self.grouping_post(*inner, out),
    ;

    fn visit_literal(&self, value: &Lit) -> (out: R)
        ensures
            self.literal_post(*value, out),
    ;

    fn visit_unary(&self, operator: &Token, operand: &Expr) -> (out: R)
        ensures
            self.unary_post(*operator, *operand, out),
    ;
}

/// The visitor's guarantee for the variant that `e` carries.
pub open spec fn accept_post<R, V: Visitor<R>>(e: Expr, v: V, out: R) -> bool {
    match e.kind {
        ExprKind::Binary(op, l, r) => v.binary_post(op, *l, *r, out),
        ExprKind::Grouping(inner) => v.grouping_post(*inner, out),
        ExprKind::Literal(value) => v.literal_post(value, out),
        ExprKind::Unary(op, operand) => v.unary_post(op, *operand, out),
    }
}

impl Expr {
    /// Double dispatch: inspects the node's own variant and invokes the
    /// matching visitor operation on its parts.
    pub fn accept<R, V: Visitor<R>>(&self, visitor: &V) -> (out: R)
        ensures
            accept_post(*self, *visitor, out),
    {
        match &self.kind {
            ExprKind::Binary(op, l, r) => visitor.visit_binary(op, &**l, &**r),
            ExprKind::Grouping(inner) => visitor.visit_grouping(&**inner),
            ExprKind::Literal(value) => visitor.visit_literal(value),
            ExprKind::Unary(op, operand) => visitor.visit_unary(op, &**operand),
        }
    }
}

} // verus!
