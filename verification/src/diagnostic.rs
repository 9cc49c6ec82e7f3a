//! The report that the rule hands to its host for a flagged expression.

use vstd::prelude::*;
use crate::expr::Span;

verus! {

/// What every report of this rule says of the flagged expression.
pub const MESSAGE: &'static str = "directly using the arithmetic operator";

/// The remedy that every report of this rule suggests.
pub const HELP: &'static str = "consider using the saturating or checked version calls";

/// One finding: where it is, what is wrong there, and what to do about it.
#[derive(Clone, Copy, Debug, PartialEq, Eq, Hash)]
pub struct Diagnostic {
    pub span: Span,
    pub message: &'static str,
    pub help: &'static str,
}

impl Diagnostic {
    /// The report for a flagged expression at `span`. Its two texts are
    /// fixed: reports of this rule differ in their place only.
    pub open spec fn warning(span: Span) -> Diagnostic {
        Diagnostic { span, message: MESSAGE, help: HELP }
    }

    /// Builds the report for a flagged expression at `span`.
    pub fn new(span: Span) -> (d: Diagnostic)
        ensures
            d == Diagnostic::warning(span),
    {
        Diagnostic { span, message: MESSAGE, help: HELP }
    }
}

} // verus!
