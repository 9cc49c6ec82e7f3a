//! Expressions as the rule sees them: what kind of node, which operator,
//! which operands, and where in the source.

use vstd::prelude::*;

verus! {

/// A range of byte positions in the analysed source: `lo` is the first byte
/// of the range, `hi` the byte after its last.
#[derive(Clone, Copy, Debug, PartialEq, Eq, Hash, Structural)]
pub struct Span {
    pub lo: u32,
    pub hi: u32,
}

/// The operator of a binary operation or of a compound assignment.
///
/// A compound assignment carries the operator it is built on: `a += b`
/// carries `Add`, `a <<= b` carries `Shl`.
#[derive(Clone, Copy, Debug, PartialEq, Eq, Hash, Structural)]
pub enum BinOpKind {
    /// `+`
    Add,
    /// `-`
    Sub,
    /// `*`
    Mul,
    /// `/`
    Div,
    /// `%`
    Rem,
    /// `&&`
    And,
    /// `||`
    Or,
    /// `^`
    BitXor,
    /// `&`
    BitAnd,
    /// `|`
    BitOr,
    /// `<<`
    Shl,
    /// `>>`
    Shr,
    /// `==`
    Eq,
    /// `<`
    Lt,
    /// `<=`
    Le,
    /// `!=`
    Ne,
    /// `>=`
    Ge,
    /// `>`
    Gt,
}

impl BinOpKind {
    /// The operators the rule is about: `+`, `-`, `*` and `/`.
    pub open spec fn spec_is_arithmetic(&self) -> bool {
        *self is Add || *self is Sub || *self is Mul || *self is Div
    }

    /// Whether the operator is one of `+`, `-`, `*` and `/`.
    #[verifier::when_used_as_spec(spec_is_arithmetic)]
    pub fn is_arithmetic(&self) -> (r: bool)
        ensures
            r == self.spec_is_arithmetic(),
    {
        match self {
            BinOpKind::Add | BinOpKind::Sub | BinOpKind::Mul | BinOpKind::Div => true,
            _ => false,
        }
    }
}

/// What an expression is, as far as the rule tells expressions apart.
#[derive(Debug, PartialEq, Eq, Hash)]
pub enum ExprKind {
    /// A binary operation such as `a + b`: operator, left operand, right
    /// operand.
    Binary(BinOpKind, Box<Expr>, Box<Expr>),
    /// A compound assignment such as `a += b`: the operator it is built on,
    /// the place assigned to, the value.
    AssignOp(BinOpKind, Box<Expr>, Box<Expr>),
    /// A literal written in the source, such as `2` or `"x"`.
    Lit,
    /// Any other expression: a name, a call, a block, ...
    Other,
}

/// One node of the syntax tree.
#[derive(Debug, PartialEq, Eq, Hash)]
pub struct Expr {
    pub kind: ExprKind,
    pub span: Span,
}

impl Expr {
    /// Whether the node itself is a literal. A computation on literals, such
    /// as `1 + 1`, is not one.
    pub open spec fn spec_is_literal(&self) -> bool {
        self.kind is Lit
    }

    /// Whether the node itself is a literal.
    #[verifier::when_used_as_spec(spec_is_literal)]
    pub fn is_literal(&self) -> (r: bool)
        ensures
            r == self.spec_is_literal(),
    {
        match self.kind {
            ExprKind::Lit => true,
            _ => false,
        }
    }

    /// Operator and operands of a node that is a binary operation or a
    /// compound assignment; `None` for every other node.
    pub open spec fn operation(self) -> Option<(BinOpKind, Expr, Expr)> {
        match self.kind {
            ExprKind::Binary(op, lhs, rhs) => Some((op, *lhs, *rhs)),
            ExprKind::AssignOp(op, lhs, rhs) => Some((op, *lhs, *rhs)),
            _ => None,
        }
    }

    /// The binary operation `lhs op rhs` at `span`.
    pub fn binary(op: BinOpKind, lhs: Expr, rhs: Expr, span: Span) -> (e: Expr)
        ensures
            e == (Expr { kind: ExprKind::Binary(op, Box::new(lhs), Box::new(rhs)), span }),
    {
        Expr { kind: ExprKind::Binary(op, Box::new(lhs), Box::new(rhs)), span }
    }

    /// The compound assignment `lhs op= rhs` at `span`.
    pub fn assign_op(op: BinOpKind, lhs: Expr, rhs: Expr, span: Span) -> (e: Expr)
        ensures
            e == (Expr { kind: ExprKind::AssignOp(op, Box::new(lhs), Box::new(rhs)), span }),
    {
        Expr { kind: ExprKind::AssignOp(op, Box::new(lhs), Box::new(rhs)), span }
    }

    /// A literal at `span`.
    pub fn lit(span: Span) -> (e: Expr)
        ensures
            e == (Expr { kind: ExprKind::Lit, span }),
    {
        Expr { kind: ExprKind::Lit, span }
    }

    /// An expression at `span` that is neither an operation nor a literal.
    pub fn other(span: Span) -> (e: Expr)
        ensures
            e == (Expr { kind: ExprKind::Other, span }),
    {
        Expr { kind: ExprKind::Other, span }
    }
}

impl Clone for Expr {
    /// A copy of the whole tree below this node, equal to it node for node.
    fn clone(&self) -> (copy: Self)
        ensures
            copy == *self,
        decreases *self,
    {
        let kind = match &self.kind {
            ExprKind::Binary(op, lhs, rhs) => {
                let left = (&**lhs).clone();
                let right = (&**rhs).clone();
                ExprKind::Binary(*op, Box::new(left), Box::new(right))
            },
            ExprKind::AssignOp(op, lhs, rhs) => {
                let left = (&**lhs).clone();
                let right = (&**rhs).clone();
                ExprKind::AssignOp(*op, Box::new(left), Box::new(right))
            },
            ExprKind::Lit => ExprKind::Lit,
            ExprKind::Other => ExprKind::Other,
        };
        Expr { kind, span: self.span }
    }
}

} // verus!
