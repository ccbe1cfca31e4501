//! The relational semantics that rewrites must preserve.
//!
//! Scalars and tables are opaque to the engine, so the semantics is given
//! relative to an [`Interp`]: an interpretation assigning rows to each
//! table, a truth value to each predicate over each row, and row
//! transformers to scalar evaluation and join pairing. A rewrite is correct
//! when it leaves the rows of the plan unchanged under *every*
//! interpretation.

use vstd::prelude::*;

use crate::plans::PlanNodeView;
use crate::plans::Scalar;
use crate::rule::Rule;
use crate::rule::dedup_spec;
use crate::rule::eliminate_filter_candidates;
use crate::rule::lemma_dedup_contains;
use crate::rule::lemma_dedup_len;
use crate::rule::rule_candidates;
use crate::sexpr::TreeView;

verus! {

/// An interpretation of the opaque parts of a plan. Rows are abstract
/// values; only the interpretation gives them meaning.
pub struct Interp {
    /// The rows each table scan produces.
    pub scan_rows: spec_fn(u64) -> Seq<int>,
    /// Whether a predicate holds of a row.
    pub pred_holds: spec_fn(Scalar, int) -> bool,
    /// The row a scalar evaluation produces from an input row.
    pub eval_row: spec_fn(Seq<Scalar>, int) -> int,
    /// The row a join produces from a pair of input rows.
    pub join_row: spec_fn(int, int) -> int,
}

/// Whether a row satisfies every predicate of a conjunction.
pub open spec fn keeps(predicates: Seq<Scalar>, row: int, m: Interp) -> bool {
    forall|i: int| 0 <= i < predicates.len() ==> (m.pred_holds)(predicates[i], row)
}

/// The row filter of a conjunction, as a function of the row.
pub open spec fn keeps_fn(predicates: Seq<Scalar>, m: Interp) -> spec_fn(int) -> bool {
    |r: int| keeps(predicates, r, m)
}

/// The row transformer of a scalar evaluation, as a function of the row.
pub open spec fn eval_fn(items: Seq<Scalar>, m: Interp) -> spec_fn(int) -> int {
    |r: int| (m.eval_row)(items, r)
}

/// The pairing of one left row with each right row of a join.
pub open spec fn join_fn(left_row: int, m: Interp) -> spec_fn(int) -> int {
    |r: int| (m.join_row)(left_row, r)
}

/// The rows of the cross product of two row sequences, paired by the
/// interpretation's join combiner, left-major order.
pub open spec fn cross_rows(a: Seq<int>, b: Seq<int>, m: Interp) -> Seq<int>
    decreases a.len(),
{
    if a.len() == 0 {
        Seq::<int>::empty()
    } else {
        b.map_values(join_fn(a[0], m)) + cross_rows(a.drop_first(), b, m)
    }
}

/// The rows a plan tree produces under an interpretation. A node that is
/// not a real relational operator (a pattern payload, or a node whose arity
/// does not fit its kind) produces no rows.
pub open spec fn rows_of(t: TreeView, m: Interp) -> Seq<int>
    decreases t,
{
    match t {
        TreeView::Leaf { plan: PlanNodeView::Scan { table } } => (m.scan_rows)(table),
        TreeView::Unary { plan: PlanNodeView::Filter { predicates, .. }, child } => rows_of(
            *child,
            m,
        ).filter(keeps_fn(predicates, m)),
        TreeView::Unary { plan: PlanNodeView::EvalScalar { items }, child } => rows_of(
            *child,
            m,
        ).map_values(eval_fn(items, m)),
        TreeView::Binary { plan: PlanNodeView::Join { .. }, left, right } => cross_rows(
            rows_of(*left, m),
            rows_of(*right, m),
            m,
        ),
        _ => Seq::<int>::empty(),
    }
}

/// Filtering with a predicate that holds of every element is the identity.
proof fn lemma_filter_all_true(s: Seq<int>, p: spec_fn(int) -> bool)
    requires
        forall|i: int| 0 <= i < s.len() ==> p(s[i]),
    ensures
        s.filter(p) == s,
    decreases s.len(),
{
    reveal(Seq::filter);
    if s.len() == 0 {
        assert(s.filter(p) =~= s);
    } else {
        lemma_filter_all_true(s.drop_last(), p);
        assert(p(s.last()));
        assert(s.drop_last().push(s.last()) =~= s);
    }
}

/// Filters with pointwise equal predicates are equal.
proof fn lemma_filter_congruent(s: Seq<int>, p: spec_fn(int) -> bool, q: spec_fn(int) -> bool)
    requires
        forall|x: int| #[trigger] p(x) == q(x),
    ensures
        s.filter(p) == s.filter(q),
    decreases s.len(),
{
    reveal(Seq::filter);
    if s.len() == 0 {
        assert(s.filter(p) =~= s.filter(q));
    } else {
        lemma_filter_congruent(s.drop_last(), p, q);
    }
}

/// A deduplicated conjunction keeps exactly the rows the full one kept.
pub proof fn lemma_keeps_dedup(predicates: Seq<Scalar>, row: int, m: Interp)
    ensures
        keeps(dedup_spec(predicates), row, m) == keeps(predicates, row, m),
{
    let deduped = dedup_spec(predicates);
    if keeps(deduped, row, m) {
        assert forall|i: int| 0 <= i < predicates.len() implies (m.pred_holds)(
            predicates[i],
            row,
        ) by {
            lemma_dedup_contains(predicates, predicates[i]);
            assert(predicates.contains(predicates[i]));
            let j = choose|j: int| 0 <= j < deduped.len() && deduped[j] == predicates[i];
            assert((m.pred_holds)(deduped[j], row));
        }
    }
    if keeps(predicates, row, m) {
        assert forall|i: int| 0 <= i < deduped.len() implies (m.pred_holds)(
            deduped[i],
            row,
        ) by {
            lemma_dedup_contains(predicates, deduped[i]);
            assert(deduped.contains(deduped[i]));
            assert(dedup_spec(predicates).contains(deduped[i]));
            let j = choose|j: int| 0 <= j < predicates.len() && predicates[j] == deduped[i];
            assert((m.pred_holds)(predicates[j], row));
        }
    }
}

/// Replacing the only child of a unary node by a row-equivalent tree leaves
/// the node's rows unchanged.
pub proof fn lemma_unary_congruence(plan: PlanNodeView, c1: TreeView, c2: TreeView, m: Interp)
    requires
        rows_of(c1, m) == rows_of(c2, m),
    ensures
        rows_of(TreeView::Unary { plan, child: Box::new(c1) }, m) == rows_of(
            TreeView::Unary { plan, child: Box::new(c2) },
            m,
        ),
{
}

/// Replacing the children of a binary node by row-equivalent trees leaves
/// the node's rows unchanged.
pub proof fn lemma_binary_congruence(
    plan: PlanNodeView,
    l1: TreeView,
    r1: TreeView,
    l2: TreeView,
    r2: TreeView,
    m: Interp,
)
    requires
        rows_of(l1, m) == rows_of(l2, m),
        rows_of(r1, m) == rows_of(r2, m),
    ensures
        rows_of(TreeView::Binary { plan, left: Box::new(l1), right: Box::new(r1) }, m) == rows_of(
            TreeView::Binary { plan, left: Box::new(l2), right: Box::new(r2) },
            m,
        ),
{
}

/// Semantic preservation of the filter-elimination rule: every candidate it
/// emits for a well-formed, pattern-free subtree produces the same rows as
/// the subtree, under every interpretation.
pub proof fn lemma_eliminate_filter_preserves_rows(t: TreeView, m: Interp)
    requires
        t.wf(),
        t.no_patterns(),
    ensures
        forall|i: int|
            0 <= i < eliminate_filter_candidates(t).len() ==> rows_of(
                #[trigger] eliminate_filter_candidates(t)[i],
                m,
            ) == rows_of(t, m),
{
    match t.plan() {
        PlanNodeView::Filter { predicates, is_having } => {
            let deduped = dedup_spec(predicates);
            lemma_dedup_len(predicates);
            if t is Unary {
                let child = t.child_at(0);
                let child_rows = rows_of(child, m);
                assert(t == (TreeView::Unary { plan: t.plan(), child: Box::new(child) }));
                assert(rows_of(t, m) == child_rows.filter(keeps_fn(predicates, m)));
                if deduped.len() == 0 {
                    if predicates.len() > 0 {
                        lemma_dedup_contains(predicates, predicates[0]);
                        assert(predicates.contains(predicates[0]));
                        assert(deduped.contains(predicates[0]));
                    }
                    assert(predicates.len() == 0);
                    assert forall|i: int| 0 <= i < child_rows.len() implies keeps_fn(
                        predicates,
                        m,
                    )(child_rows[i]) by {
                        assert(keeps(predicates, child_rows[i], m));
                    }
                    lemma_filter_all_true(child_rows, keeps_fn(predicates, m));
                    assert(eliminate_filter_candidates(t) == seq![child]);
                } else if deduped.len() < predicates.len() {
                    assert forall|x: int| #[trigger] keeps_fn(deduped, m)(x) == keeps_fn(
                        predicates,
                        m,
                    )(x) by {
                        lemma_keeps_dedup(predicates, x, m);
                    }
                    lemma_filter_congruent(
                        child_rows,
                        keeps_fn(deduped, m),
                        keeps_fn(predicates, m),
                    );
                    let candidate = TreeView::Unary {
                        plan: PlanNodeView::Filter { predicates: deduped, is_having },
                        child: Box::new(child),
                    };
                    assert(rows_of(candidate, m) == child_rows.filter(keeps_fn(deduped, m)));
                }
            }
        }
        _ => {}
    }
}

/// Semantic preservation of every registered rule: any candidate a rule
/// emits for a well-formed, pattern-free subtree produces the same rows as
/// the subtree, under every interpretation.
pub proof fn lemma_rule_preserves_rows(rule: Rule, t: TreeView, m: Interp)
    requires
        t.wf(),
        t.no_patterns(),
    ensures
        forall|i: int|
            0 <= i < rule_candidates(rule, t).len() ==> rows_of(
                #[trigger] rule_candidates(rule, t)[i],
                m,
            ) == rows_of(t, m),
{
    match rule {
        Rule::EliminateFilter(_) => lemma_eliminate_filter_preserves_rows(t, m),
    }
}

} // verus!
