//! The rule: which expressions are flagged, and what is reported for them.

use vstd::prelude::*;
use crate::diagnostic::Diagnostic;
use crate::expr::{Expr, ExprKind};

verus! {

/// An expression is risky when it applies `+`, `-`, `*` or `/`, as a binary
/// operation or as a compound assignment, to two operands neither of which
/// is itself a literal.
///
/// Only the operands themselves are looked at, not what they are made of:
/// in `(1 + 1) * x` the left operand is an operation, so the product is
/// risky, while the sum inside it is not.
pub open spec fn is_risky(expr: Expr) -> bool {
    match expr.operation() {
        Some((op, lhs, rhs)) => op.is_arithmetic() && !lhs.is_literal() && !rhs.is_literal(),
        None => false,
    }
}

/// What the rule has to say about `expr`: one report at the expression's own
/// place if it is risky, nothing otherwise.
pub open spec fn finding(expr: Expr) -> Option<Diagnostic> {
    if is_risky(expr) {
        Some(Diagnostic::warning(expr.span))
    } else {
        None
    }
}

/// The reports held by a sink that held `before` and was then handed `expr`.
pub open spec fn recorded(before: Seq<Diagnostic>, expr: Expr) -> Seq<Diagnostic> {
    match finding(expr) {
        Some(d) => before.push(d),
        None => before,
    }
}

/// The reports held by a sink that held `before` and was then handed the
/// expressions of `visits` one by one, first to last.
pub open spec fn recorded_all(before: Seq<Diagnostic>, visits: Seq<Expr>) -> Seq<Diagnostic>
    decreases visits.len(),
{
    if visits.len() == 0 {
        before
    } else {
        recorded(recorded_all(before, visits.drop_last()), visits.last())
    }
}

/// The rule against unchecked arithmetic. It keeps nothing between
/// expressions: each one is judged by itself.
#[derive(Clone, Copy, Debug, Default)]
pub struct ArithmeticOp;

impl ArithmeticOp {
    /// Judges one expression and returns the report it calls for, if any.
    pub fn classify(expr: &Expr) -> (verdict: Option<Diagnostic>)
        ensures
            verdict == finding(*expr),
    {
        match &expr.kind {
            ExprKind::AssignOp(op, lhs, rhs) | ExprKind::Binary(op, lhs, rhs) => {
                if !op.is_arithmetic() || lhs.is_literal() || rhs.is_literal() {
                    None
                } else {
                    Some(Diagnostic::new(expr.span))
                }
            },
            _ => None,
        }
    }

    /// Judges one expression and, if it is risky, adds the report to `sink`.
    /// What `sink` held before stays as it was, in front of the new report.
    pub fn check_expr(&self, sink: &mut Vec<Diagnostic>, expr: &Expr)
        ensures
            final(sink)@ == recorded(old(sink)@, *expr),
    {
        match ArithmeticOp::classify(expr) {
            Some(diagnostic) => sink.push(diagnostic),
            None => (),
        }
    }
}

} // verus!
