//! A lint rule against unchecked arithmetic.
//!
//! The rule looks at one expression of a syntax tree at a time. An expression
//! that applies `+`, `-`, `*` or `/` (or the compound assignment built on one
//! of them) to two operands, neither of which is written as a literal, may
//! overflow unnoticed, and the rule reports it. Everything else passes.
//!
//! The host that walks the tree owns the nodes and renders the reports; this
//! crate holds the tree as the rule sees it ([`expr`]), the report
//! ([`diagnostic`]), the rule itself ([`lint`]) and what is proved of the rule
//! beyond the contracts of its functions ([`lemmas`]).

pub mod diagnostic;
pub mod expr;
pub mod lemmas;
pub mod lint;

pub use diagnostic::{Diagnostic, HELP, MESSAGE};
pub use expr::{BinOpKind, Expr, ExprKind, Span};
pub use lint::ArithmeticOp;
