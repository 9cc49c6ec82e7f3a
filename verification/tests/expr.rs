use arithmetic_op::{BinOpKind, Diagnostic, Expr, ExprKind, Span};

fn span(lo: u32, hi: u32) -> Span {
    Span { lo, hi }
}

#[test]
fn the_four_arithmetic_operators() {
    assert!(BinOpKind::Add.is_arithmetic());
    assert!(BinOpKind::Sub.is_arithmetic());
    assert!(BinOpKind::Mul.is_arithmetic());
    assert!(BinOpKind::Div.is_arithmetic());
}

#[test]
fn every_other_operator_is_not_arithmetic() {
    let others = [
        BinOpKind::Rem,
        BinOpKind::And,
        BinOpKind::Or,
        BinOpKind::BitXor,
        BinOpKind::BitAnd,
        BinOpKind::BitOr,
        BinOpKind::Shl,
        BinOpKind::Shr,
        BinOpKind::Eq,
        BinOpKind::Lt,
        BinOpKind::Le,
        BinOpKind::Ne,
        BinOpKind::Ge,
        BinOpKind::Gt,
    ];
    for op in others {
        assert!(!op.is_arithmetic(), "{:?}", op);
    }
}

#[test]
fn only_a_literal_node_is_a_literal() {
    assert!(Expr::lit(span(0, 1)).is_literal());
    assert!(!Expr::other(span(0, 1)).is_literal());
    let sum = Expr::binary(BinOpKind::Add, Expr::lit(span(0, 1)), Expr::lit(span(4, 5)), span(0, 5));
    assert!(!sum.is_literal());
    let update =
        Expr::assign_op(BinOpKind::Add, Expr::lit(span(0, 1)), Expr::lit(span(5, 6)), span(0, 6));
    assert!(!update.is_literal());
}

#[test]
fn binary_keeps_operator_operands_and_span() {
    let built = Expr::binary(BinOpKind::Shr, Expr::other(span(0, 1)), Expr::lit(span(5, 6)), span(0, 6));
    let written = Expr {
        kind: ExprKind::Binary(
            BinOpKind::Shr,
            Box::new(Expr { kind: ExprKind::Other, span: span(0, 1) }),
            Box::new(Expr { kind: ExprKind::Lit, span: span(5, 6) }),
        ),
        span: span(0, 6),
    };
    assert_eq!(built, written);
}

#[test]
fn assign_op_keeps_operator_operands_and_span() {
    let built =
        Expr::assign_op(BinOpKind::Sub, Expr::other(span(0, 1)), Expr::lit(span(5, 6)), span(0, 6));
    let written = Expr {
        kind: ExprKind::AssignOp(
            BinOpKind::Sub,
            Box::new(Expr { kind: ExprKind::Other, span: span(0, 1) }),
            Box::new(Expr { kind: ExprKind::Lit, span: span(5, 6) }),
        ),
        span: span(0, 6),
    };
    assert_eq!(built, written);
}

#[test]
fn binary_and_assign_op_are_different_nodes() {
    let binary = Expr::binary(BinOpKind::Add, Expr::other(span(0, 1)), Expr::other(span(5, 6)), span(0, 6));
    let assign =
        Expr::assign_op(BinOpKind::Add, Expr::other(span(0, 1)), Expr::other(span(5, 6)), span(0, 6));
    assert_ne!(binary, assign);
}

#[test]
fn operands_are_not_swapped() {
    let built = Expr::binary(BinOpKind::Sub, Expr::lit(span(0, 1)), Expr::other(span(4, 5)), span(0, 5));
    match built.kind {
        ExprKind::Binary(op, lhs, rhs) => {
            assert_eq!(op, BinOpKind::Sub);
            assert_eq!(*lhs, Expr { kind: ExprKind::Lit, span: span(0, 1) });
            assert_eq!(*rhs, Expr { kind: ExprKind::Other, span: span(4, 5) });
        }
        _ => unreachable!(),
    }
}

#[test]
fn leaves_keep_their_span() {
    assert_eq!(Expr::lit(span(3, 4)), Expr { kind: ExprKind::Lit, span: span(3, 4) });
    assert_eq!(Expr::other(span(3, 9)), Expr { kind: ExprKind::Other, span: span(3, 9) });
}

#[test]
fn clone_copies_the_whole_tree() {
    let tree = Expr::assign_op(
        BinOpKind::Mul,
        Expr::other(span(0, 3)),
        Expr::binary(
            BinOpKind::Add,
            Expr::binary(BinOpKind::Shl, Expr::lit(span(8, 9)), Expr::other(span(13, 14)), span(8, 14)),
            Expr::lit(span(18, 19)),
            span(7, 19),
        ),
        span(0, 19),
    );
    let copy = tree.clone();
    assert_eq!(copy, tree);
    assert_eq!(copy.clone(), tree);
}

#[test]
fn clone_of_a_leaf() {
    assert_eq!(Expr::lit(span(1, 2)).clone(), Expr::lit(span(1, 2)));
    assert_eq!(Expr::other(span(1, 2)).clone(), Expr::other(span(1, 2)));
}

#[test]
fn diagnostic_new_fills_in_the_fixed_texts() {
    let d = Diagnostic::new(span(11, 17));
    assert_eq!(d.span, span(11, 17));
    assert_eq!(d.message, "directly using the arithmetic operator");
    assert_eq!(d.help, "consider using the saturating or checked version calls");
}

#[test]
fn diagnostics_differ_in_their_span_only() {
    let first = Diagnostic::new(span(1, 2));
    let second = Diagnostic::new(span(1, 3));
    assert_ne!(first, second);
    assert_eq!(first.message, second.message);
    assert_eq!(first.help, second.help);
    assert_eq!(first, Diagnostic::new(span(1, 2)));
}
