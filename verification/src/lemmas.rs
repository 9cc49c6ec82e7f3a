//! What holds of the rule for every expression, beyond the contracts of its
//! functions: which expressions pass, which are reported, and that a verdict
//! rests on the expression alone.

use vstd::prelude::*;
use crate::diagnostic::Diagnostic;
use crate::expr::Expr;
use crate::lint::{finding, is_risky, recorded, recorded_all};

verus! {

/// An operation whose operator is none of `+`, `-`, `*`, `/` is never
/// reported, whatever its operands are: a sink that is handed one stays as
/// it was.
pub proof fn lemma_other_operators_pass(expr: Expr)
    requires
        expr.operation() matches Some((op, _, _)) && !op.is_arithmetic(),
    ensures
        finding(expr) is None,
        forall|before: Seq<Diagnostic>| #[trigger] recorded(before, expr) == before,
{
}

/// An arithmetic operation with a literal for its left operand, for its
/// right operand or for both is never reported.
pub proof fn lemma_literal_operand_passes(expr: Expr)
    requires
        expr.operation() matches Some((op, lhs, rhs)) && op.is_arithmetic() && (lhs.is_literal()
            || rhs.is_literal()),
    ensures
        finding(expr) is None,
        forall|before: Seq<Diagnostic>| #[trigger] recorded(before, expr) == before,
{
}

/// An arithmetic operation on two operands neither of which is a literal is
/// reported exactly once, at its own place: a sink that is handed one grows
/// by that one report and by nothing else.
pub proof fn lemma_non_literal_operands_reported(expr: Expr)
    requires
        expr.operation() matches Some((op, lhs, rhs)) && op.is_arithmetic() && !lhs.is_literal()
            && !rhs.is_literal(),
    ensures
        finding(expr) == Some(Diagnostic::warning(expr.span)),
        forall|before: Seq<Diagnostic>| #[trigger]
            recorded(before, expr) == before.push(Diagnostic::warning(expr.span)),
        forall|before: Seq<Diagnostic>| #[trigger]
            recorded(before, expr).len() == before.len() + 1,
{
}

/// The exemption for literals reaches one level deep. An operand that is
/// itself an operation never exempts the operation it stands in, whatever it
/// is made of, literals included: the verdict is then up to the other
/// operand alone.
pub proof fn lemma_operation_operand_never_exempts(expr: Expr)
    requires
        expr.operation() matches Some((op, _, _)) && op.is_arithmetic(),
    ensures
        ({
            let (_, lhs, rhs) = expr.operation().unwrap();
            &&& lhs.operation() is Some ==> (is_risky(expr) <==> !rhs.is_literal())
            &&& rhs.operation() is Some ==> (is_risky(expr) <==> !lhs.is_literal())
        }),
{
}

/// A verdict rests on the node's own operator and on whether each of its two
/// operands is a literal, and on nothing else. Two nodes that agree in these
/// are both risky or both not; if they also stand at the same place, the
/// same is reported for both. What the operands are made of, and what
/// surrounds the node, has no part in it.
pub proof fn lemma_verdict_is_local(a: Expr, b: Expr)
    requires
        a.operation() is Some <==> b.operation() is Some,
        a.operation() matches Some((op_a, lhs_a, rhs_a)) ==> (b.operation() matches Some(
            (op_b, lhs_b, rhs_b),
        ) && op_a == op_b && lhs_a.is_literal() == lhs_b.is_literal() && rhs_a.is_literal()
            == rhs_b.is_literal()),
    ensures
        is_risky(a) == is_risky(b),
        a.span == b.span ==> finding(a) == finding(b),
{
}

/// What a sink holds has no part in a verdict. Whatever two sinks held
/// before, each keeps what it held, and what is added to one for `expr` is
/// what is added to the other.
pub proof fn lemma_report_independent_of_sink(
    first: Seq<Diagnostic>,
    second: Seq<Diagnostic>,
    expr: Expr,
)
    ensures
        recorded(first, expr).take(first.len() as int) == first,
        recorded(second, expr).take(second.len() as int) == second,
        recorded(first, expr).skip(first.len() as int) == recorded(second, expr).skip(
            second.len() as int,
        ),
{
}

/// The order in which two expressions are examined decides the order of
/// their reports and nothing more: either way the sink ends up with the same
/// reports, each as often.
pub proof fn lemma_order_of_visits_permutes_reports(before: Seq<Diagnostic>, a: Expr, b: Expr)
    ensures
        recorded(recorded(before, a), b).to_multiset() == recorded(
            recorded(before, b),
            a,
        ).to_multiset(),
{
    broadcast use vstd::seq_lib::group_to_multiset_ensures;
}

/// A walk leaves a sink with what it held before, followed by what the walk
/// would have left in an empty sink.
proof fn lemma_recorded_all_appends(before: Seq<Diagnostic>, visits: Seq<Expr>)
    ensures
        recorded_all(before, visits) == before + recorded_all(Seq::empty(), visits),
    decreases visits.len(),
{
    if visits.len() > 0 {
        lemma_recorded_all_appends(before, visits.drop_last());
    }
}

/// A walk in two parts reports what the first part reports, followed by what
/// the second part reports.
proof fn lemma_recorded_all_concat(before: Seq<Diagnostic>, head: Seq<Expr>, tail: Seq<Expr>)
    ensures
        recorded_all(before, head + tail) == recorded_all(recorded_all(before, head), tail),
    decreases tail.len(),
{
    if tail.len() > 0 {
        assert((head + tail).drop_last() == head + tail.drop_last());
        lemma_recorded_all_concat(before, head, tail.drop_last());
    }
}

/// Moving one visit of a walk to its end permutes the reports.
proof fn lemma_visit_moved_to_end(visits: Seq<Expr>, i: int)
    requires
        0 <= i < visits.len(),
    ensures
        recorded_all(Seq::empty(), visits).to_multiset() == recorded(
            recorded_all(Seq::empty(), visits.remove(i)),
            visits[i],
        ).to_multiset(),
{
    broadcast use vstd::seq_lib::group_to_multiset_ensures;

    let none = Seq::<Diagnostic>::empty();
    let head = visits.take(i);
    let one = seq![visits[i]];
    let tail = visits.skip(i + 1);
    assert(visits == head + one + tail);
    assert(visits.remove(i) == head + tail);

    let at_head = recorded_all(none, head);
    let of_one = recorded_all(none, one);
    let of_tail = recorded_all(none, tail);
    assert(of_one == recorded(none, visits[i])) by {
        assert(recorded_all(none, one.drop_last()) == none);
    }

    // the walk as it is: head, the one visit, tail
    lemma_recorded_all_concat(none, head + one, tail);
    lemma_recorded_all_concat(none, head, one);
    lemma_recorded_all_appends(at_head, one);
    lemma_recorded_all_appends(at_head + of_one, tail);
    assert(recorded_all(none, visits) == at_head + of_one + of_tail);

    // the walk with the one visit taken out and made last
    lemma_recorded_all_concat(none, head, tail);
    lemma_recorded_all_appends(at_head, tail);
    assert(recorded_all(none, visits.remove(i)) == at_head + of_tail);

    vstd::seq_lib::lemma_multiset_commutative(at_head + of_one, of_tail);
    vstd::seq_lib::lemma_multiset_commutative(at_head, of_one);
    vstd::seq_lib::lemma_multiset_commutative(at_head, of_tail);
}

/// The order of a walk decides the order of the reports and nothing more.
/// Two walks that visit the same expressions, each as often, in whatever
/// order, leave a sink with the same reports, each as often.
pub proof fn lemma_order_of_walk_permutes_reports(
    before: Seq<Diagnostic>,
    walk: Seq<Expr>,
    other_walk: Seq<Expr>,
)
    requires
        walk.to_multiset() == other_walk.to_multiset(),
    ensures
        recorded_all(before, walk).to_multiset() == recorded_all(
            before,
            other_walk,
        ).to_multiset(),
    decreases walk.len(),
{
    broadcast use vstd::seq_lib::group_to_multiset_ensures;

    let none = Seq::<Diagnostic>::empty();
    lemma_recorded_all_appends(before, walk);
    lemma_recorded_all_appends(before, other_walk);
    vstd::seq_lib::lemma_multiset_commutative(before, recorded_all(none, walk));
    vstd::seq_lib::lemma_multiset_commutative(before, recorded_all(none, other_walk));
    if walk.len() == 0 {
        assert(other_walk.len() == 0) by {
            assert(walk.to_multiset().len() == walk.len());
            assert(other_walk.to_multiset().len() == other_walk.len());
        }
    } else {
        let last = walk.last();
        assert(walk == walk.drop_last().push(last));
        assert(other_walk.to_multiset().count(last) > 0);
        let i = other_walk.index_of(last);
        assert(walk.drop_last().to_multiset() == other_walk.remove(i).to_multiset()) by {
            assert(walk.drop_last().to_multiset() =~= walk.to_multiset().remove(last));
        }
        lemma_order_of_walk_permutes_reports(none, walk.drop_last(), other_walk.remove(i));
        lemma_visit_moved_to_end(other_walk, i);
    }
}

/// Nothing is remembered between two calls. An expression that is examined
/// twice is judged twice, and a risky one is reported twice, with two equal
/// reports.
pub proof fn lemma_examined_twice_reported_twice(before: Seq<Diagnostic>, expr: Expr)
    ensures
        recorded(recorded(before, expr), expr) == match finding(expr) {
            Some(d) => before.push(d).push(d),
            None => before,
        },
        is_risky(expr) ==> recorded(recorded(before, expr), expr) == before + seq![
            Diagnostic::warning(expr.span),
            Diagnostic::warning(expr.span),
        ],
{
}

} // verus!
