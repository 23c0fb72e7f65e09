//! The reference visitor: a printer that renders an expression tree as a
//! fully parenthesized prefix form — `(<operator> <left> <right>)` for a
//! binary node, `(group <inner>)` for a grouping, `(<operator> <operand>)`
//! for a unary node, and a literal as its textual form (`nil` for the nil
//! value, `true`/`false` for booleans, the canonical decimal text for a
//! number, and a string in its quotes).

use vstd::prelude::*;
use vstd::string::StrSliceExecFns;
use vstd::string::StringExecFns;

use crate::expr::{Expr, ExprKind};
use crate::tokens::{Lit, LitKind, LitView, Token};
use crate::visit::Visitor;

verus! {

/// The textual form of a literal value.
pub open spec fn render_lit(v: LitView) -> Seq<char> {
    match v {
        LitView::Str(s) => "\""@ + s + "\""@,
        LitView::Number(t) => t,
        LitView::Bool(b) => if b {
            "true"@
        } else {
            "false"@
        },
        LitView::Nil => "nil"@,
    }
}

/// The fully parenthesized prefix rendering of an expression tree.
pub open spec fn render_expr(e: Expr) -> Seq<char>
    decreases e,
{
    match e.kind {
        ExprKind::Binary(op, l, r) => "("@ + op.lexeme@ + " "@ + render_expr(*l) + " "@
            + render_expr(*r) + ")"@,
        ExprKind::Grouping(inner) => "("@ + "group"@ + " "@ + render_expr(*inner) + ")"@,
        ExprKind::Literal(value) => render_lit(value@),
        ExprKind::Unary(op, operand) => "("@ + op.lexeme@ + " "@ + render_expr(*operand) + ")"@,
    }
}

/// The parts a parenthesized group appends after its name: one space and
/// one rendered expression for each element.
pub open spec fn paren_parts(exprs: Seq<Expr>) -> Seq<char>
    decreases exprs.len(),
{
    if exprs.len() == 0 {
        Seq::empty()
    } else {
        paren_parts(exprs.drop_last()) + " "@ + render_expr(exprs.last())
    }
}

/// The textual form of a literal value.
fn render_lit_exec(value: &Lit) -> (s: String)
    ensures
        s@ == render_lit(value@),
{
    match &value.kind {
        LitKind::Str(text) => {
            let mut s = "\"".to_owned();
            s.append(text.as_str());
            s.append("\"");
            s
        },
        LitKind::Number(text) => text.clone(),
        LitKind::Bool(b) => {
            if *b {
                "true".to_owned()
            } else {
                "false".to_owned()
            }
        },
        LitKind::Nil => "nil".to_owned(),
    }
}

/// Renders one expression tree, per [`render_expr`].
fn render(e: &Expr) -> (s: String)
    ensures
        s@ == render_expr(*e),
    decreases *e,
{
    match &e.kind {
        ExprKind::Binary(op, l, r) => {
            let mut s = "(".to_owned();
            s.append(op.lexeme.as_str());
            s.append(" ");
            let ls = render(&**l);
            s.append(ls.as_str());
            s.append(" ");
            let rs = render(&**r);
            s.append(rs.as_str());
            s.append(")");
            proof {
                assert(s@ =~= render_expr(*e));
            }
            s
        },
        ExprKind::Grouping(inner) => {
            let mut s = "(".to_owned();
            s.append("group");
            s.append(" ");
            let is_ = render(&**inner);
            s.append(is_.as_str());
            s.append(")");
            proof {
                assert(s@ =~= render_expr(*e));
            }
            s
        },
        ExprKind::Literal(value) => render_lit_exec(value),
        ExprKind::Unary(op, operand) => {
            let mut s = "(".to_owned();
            s.append(op.lexeme.as_str());
            s.append(" ");
            let os = render(&**operand);
            s.append(os.as_str());
            s.append(")");
            proof {
                assert(s@ =~= render_expr(*e));
            }
            s
        },
    }
}

/// The printer: a stateless traversal, so any tree renders the same way on
/// every visit.
pub struct AstPrinter;

impl AstPrinter {
    /// Renders `name` and the given sub-expressions as one parenthesized
    /// group: `(<name> <expr> ...)`.
    fn parenthesize(&self, name: String, exprs: Vec<&Expr>) -> (s: String)
        ensures
            s@ == "("@ + name@ + paren_parts(exprs@.map_values(|e: &Expr| *e)) + ")"@,
    {
        let ghost all = exprs@.map_values(|e: &Expr| *e);
        let mut s = "(".to_owned();
        s.append(name.as_str());
        proof {
            assert(all.take(0) =~= Seq::<Expr>::empty());
        }
        let mut i: usize = 0;
        while i < exprs.len()
            invariant
                i <= exprs@.len(),
                all == exprs@.map_values(|e: &Expr| *e),
                s@ == "("@ + name@ + paren_parts(all.take(i as int)),
            decreases exprs@.len() - i,
        {
            s.append(" ");
            let es = render(exprs[i]);
            s.append(es.as_str());
            i = i + 1;
            proof {
                assert(all.take(i as int).drop_last() =~= all.take(i - 1));
                assert(all.take(i as int).last() == all[i - 1]);
                assert(s@ =~= "("@ + name@ + paren_parts(all.take(i as int)));
            }
        }
        s.append(")");
        proof {
            assert(all.take(all.len() as int) =~= all);
        }
        s
    }

    /// Renders a whole expression tree through the visitor dispatch.
    pub fn print(&self, expr: &Expr) -> (s: String)
        ensures
            s@ == render_expr(*expr),
    {
        expr.accept(self)
    }
}

impl Visitor<String> for AstPrinter {
    open spec fn binary_post(&self, operator: Token, lhs: Expr, rhs: Expr, out: String) -> bool {
        out@ == "("@ + operator.lexeme@ + " "@ + render_expr(lhs) + " "@ + render_expr(rhs) + ")"@
    }

    open spec fn grouping_post(&self, inner: Expr, out: String) -> bool {
        out@ == "("@ + "group"@ + " "@ + render_expr(inner) + ")"@
    }

    open spec fn literal_post(&self, value: Lit, out: String) -> bool {
        out@ == render_lit(value@)
    }

    open spec fn unary_post(&self, operator: Token, operand: Expr, out: String) -> bool {
        out@ == "("@ + operator.lexeme@ + " "@ + render_expr(operand) + ")"@
    }

    fn visit_binary(&self, operator: &Token, lhs: &Expr, rhs: &Expr) -> (out: String) {
        let mut exprs: Vec<&Expr> = Vec::new();
        exprs.push(lhs);
        exprs.push(rhs);
        let out = self.parenthesize(operator.lexeme.clone(), exprs);
        proof {
            let all = exprs@.map_values(|e: &Expr| *e);
            assert(all.len() == 2 && all.last() == *rhs);
            assert(all.drop_last() =~= seq![*lhs]);
            assert(paren_parts(all) == paren_parts(seq![*lhs]) + " "@ + render_expr(*rhs));
            assert(seq![*lhs].drop_last() =~= Seq::<Expr>::empty());
            assert(seq![*lhs].last() == *lhs);
            assert(paren_parts(seq![*lhs]) == paren_parts(Seq::<Expr>::empty()) + " "@
                + render_expr(*lhs));
            assert(paren_parts(Seq::<Expr>::empty()) == Seq::<char>::empty());
            assert(out@ =~= "("@ + operator.lexeme@ + " "@ + render_expr(*lhs) + " "@
                + render_expr(*rhs) + ")"@);
        }
        out
    }

    fn visit_grouping(&self, inner: &Expr) -> (out: String) {
        let mut exprs: Vec<&Expr> = Vec::new();
        exprs.push(inner);
        let out = self.parenthesize("group".to_owned(), exprs);
        proof {
            let all = exprs@.map_values(|e: &Expr| *e);
            assert(all.len() == 1 && all.last() == *inner);
            assert(all.drop_last() =~= Seq::<Expr>::empty());
            assert(paren_parts(all) == paren_parts(Seq::<Expr>::empty()) + " "@ + render_expr(
                *inner,
            ));
            assert(paren_parts(Seq::<Expr>::empty()) == Seq::<char>::empty());
            assert(out@ =~= "("@ + "group"@ + " "@ + render_expr(*inner) + ")"@);
        }
        out
    }

    fn visit_literal(&self, value: &Lit) -> (out: String) {
        render_lit_exec(value)
    }

    fn visit_unary(&self, operator: &Token, operand: &Expr) -> (out: String) {
        let mut exprs: Vec<&Expr> = Vec::new();
        exprs.push(operand);
        let out = self.parenthesize(operator.lexeme.clone(), exprs);
        proof {
            let all = exprs@.map_values(|e: &Expr| *e);
            assert(all.len() == 1 && all.last() == *operand);
            assert(all.drop_last() =~= Seq::<Expr>::empty());
            assert(paren_parts(all) == paren_parts(Seq::<Expr>::empty()) + " "@ + render_expr(
                *operand,
            ));
            assert(paren_parts(Seq::<Expr>::empty()) == Seq::<char>::empty());
            assert(out@ =~= "("@ + operator.lexeme@ + " "@ + render_expr(*operand) + ")"@);
        }
        out
    }
}

/// Law: rendering is a pure function of the tree. Any two renderings of the
/// same expression — in particular two successive calls of the printer —
/// are identical: the traversal keeps no hidden mutable state.
pub proof fn lemma_render_deterministic(e: Expr, s1: Seq<char>, s2: Seq<char>)
    requires
        s1 == render_expr(e),
        s2 == render_expr(e),
    ensures
        s1 == s2,
{
}

} // verus!
