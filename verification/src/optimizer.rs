//! The driver that rewrites a plan tree to a fixed point.
//!
//! One optimization pass walks the tree post-order: children are fully
//! stabilized before their parent is tested. At each node the registered
//! rules are tried in registration order; the first rule whose pattern
//! matches and whose application yields a candidate has its first candidate
//! substituted for the subtree, and the substituted subtree is re-optimized.
//! The pass ends when a full traversal produces no substitution, or fails
//! with an iteration-cap fault when a pathological rule set keeps firing.
//!
//! The contract of [`Optimizer::optimize`] states the driver laws: the
//! returned tree is stable (no registered rule fires anywhere in it), it
//! produces the same rows as the input under every interpretation, an
//! already-stable input is returned unchanged — so re-running the
//! optimizer on its own output yields that output again, structurally
//! equal — and success is owed whenever the cap covers the input's
//! rewrite measure ([`rewrite_bound`]), which every substitution strictly
//! decreases: the cap can only fire short of that. Termination within the
//! cap is enforced by the recursion measure.

use vstd::prelude::*;

use crate::errors::OptimizerError;
use crate::matcher::spec_matches;
use crate::rule::Rule;
use crate::rule::RuleID;
use crate::rule::TransformResult;
use crate::rule::lemma_rule_candidates_wf;
use crate::rule::rewrite_bound;
use crate::rule::rule_candidates;
use crate::rule::rule_pattern;
use crate::semantics::Interp;
use crate::semantics::lemma_rule_preserves_rows;
use crate::semantics::rows_of;
use crate::sexpr::SExpr;
use crate::sexpr::TreeView;

verus! {

/// Whether no registered rule fires at the root of `t`: every rule either
/// does not match or emits no candidate.
pub open spec fn node_stable(rules: Seq<Rule>, t: TreeView) -> bool {
    forall|i: int|
        0 <= i < rules.len() ==> !(spec_matches(#[trigger] rule_pattern(rules[i]), t)
            && rule_candidates(rules[i], t).len() > 0)
}

/// Whether no registered rule fires anywhere in `t`.
pub open spec fn tree_stable(rules: Seq<Rule>, t: TreeView) -> bool
    decreases t,
{
    &&& node_stable(rules, t)
    &&& match t {
        TreeView::Leaf { .. } => true,
        TreeView::Unary { child, .. } => tree_stable(rules, *child),
        TreeView::Binary { left, right, .. } => tree_stable(rules, *left) && tree_stable(
            rules,
            *right,
        ),
    }
}

/// One substitution event, attributable for tracing and explain output:
/// which rule fired, and the subtree shapes before and after.
#[derive(Debug)]
pub struct TraceRecord {
    pub rule: RuleID,
    pub before: SExpr,
    pub after: SExpr,
}

/// A sound substitution event: the replacement subtree produces the same
/// rows as the subtree it replaced, under every interpretation.
pub open spec fn trace_record_ok(r: TraceRecord) -> bool {
    forall|m: Interp| #[trigger] rows_of(r.after@, m) == rows_of(r.before@, m)
}

/// The rewriting driver: an ordered collection of rules fixed at
/// construction, and a cap on substitutions per optimization call.
pub struct Optimizer {
    rules: Vec<Rule>,
    max_substitutions: usize,
}

impl Optimizer {
    /// The registered rules, in priority order.
    pub closed spec fn spec_rules(&self) -> Seq<Rule> {
        self.rules@
    }

    /// The bound on substitutions per optimization call.
    pub closed spec fn cap(&self) -> int {
        self.max_substitutions as int
    }

    /// A driver over the given rules with the default iteration cap.
    pub fn new(rules: Vec<Rule>) -> (r: Optimizer)
        ensures
            r.spec_rules() == rules@,
            r.cap() == 1024,
    {
        Optimizer { rules, max_substitutions: 1024 }
    }

    /// A driver over the given rules with an explicit iteration cap.
    pub fn with_cap(rules: Vec<Rule>, max_substitutions: usize) -> (r: Optimizer)
        ensures
            r.spec_rules() == rules@,
            r.cap() == max_substitutions as int,
    {
        Optimizer { rules, max_substitutions }
    }

    /// Optimize one subtree: stabilize the children, then fire the first
    /// applicable rule at the root and re-optimize the substitution.
    /// `budget` bounds the substitutions still allowed; the second result
    /// is what is left of it.
    #[verifier::loop_isolation(false)]
    fn optimize_rec(&self, e: &SExpr, budget: usize, trace: &mut Vec<TraceRecord>) -> (r: Result<
        (SExpr, usize),
        OptimizerError,
    >)
        requires
            e@.wf(),
            e@.no_patterns(),
        ensures
            old(trace)@.is_prefix_of(final(trace)@),
            forall|k: int|
                old(trace)@.len() <= k < final(trace)@.len() ==> trace_record_ok(
                    #[trigger] final(trace)@[k],
                ),
            match r {
                Ok(p) => {
                    &&& p.1 <= budget
                    &&& p.0@.wf()
                    &&& p.0@.no_patterns()
                    &&& tree_stable(self.spec_rules(), p.0@)
                    &&& (forall|m: Interp| #[trigger] rows_of(p.0@, m) == rows_of(e@, m))
                    &&& (tree_stable(self.spec_rules(), e@) ==> p.0@ == e@ && p.1 == budget)
                    &&& final(trace)@.len() - old(trace)@.len() == budget - p.1
                    &&& rewrite_bound(p.0@) <= rewrite_bound(e@)
                    &&& budget - p.1 <= rewrite_bound(e@) - rewrite_bound(p.0@)
                },
                Err(err) => err == OptimizerError::IterationCapExceeded,
            },
            tree_stable(self.spec_rules(), e@) ==> r is Ok,
            rewrite_bound(e@) <= budget + 1 ==> r is Ok,
        decreases budget, e@,
    {
        let ghost rules_seq = self.spec_rules();
        let arity = e.arity();
        let mut rem: usize = budget;
        let node: SExpr;
        if arity == 0 {
            node = e.duplicate();
        } else if arity == 1 {
            let c = match e.child(0) {
                Ok(c) => c,
                Err(_) => {
                    proof {
                        assert(false);
                    }
                    return Err(OptimizerError::OutOfBounds);
                }
            };
            let (c_opt, rem1) = match self.optimize_rec(c, budget, trace) {
                Ok(p) => p,
                Err(err) => {
                    return Err(err);
                }
            };
            rem = rem1;
            node = SExpr::create_unary(e.plan().duplicate(), c_opt);
            proof {
                assert(e@ == (TreeView::Unary { plan: e@.plan(), child: Box::new(c@) }));
                assert forall|m: Interp| #[trigger] rows_of(node@, m) == rows_of(e@, m) by {
                    crate::semantics::lemma_unary_congruence(e@.plan(), c_opt@, c@, m);
                }
            }
        } else {
            let cl = match e.child(0) {
                Ok(c) => c,
                Err(_) => {
                    proof {
                        assert(false);
                    }
                    return Err(OptimizerError::OutOfBounds);
                }
            };
            let cr = match e.child(1) {
                Ok(c) => c,
                Err(_) => {
                    proof {
                        assert(false);
                    }
                    return Err(OptimizerError::OutOfBounds);
                }
            };
            let (l_opt, rem1) = match self.optimize_rec(cl, budget, trace) {
                Ok(p) => p,
                Err(err) => {
                    return Err(err);
                }
            };
            let ghost trace_mid = trace@;
            let (r_opt, rem2) = match self.optimize_rec(cr, rem1, trace) {
                Ok(p) => p,
                Err(err) => {
                    proof {
                        assert(old(trace)@ =~= trace@.subrange(0, old(trace)@.len() as int));
                        assert(trace_mid =~= trace@.subrange(0, trace_mid.len() as int));
                        assert forall|k: int|
                            old(trace)@.len() <= k < trace@.len() implies trace_record_ok(
                            trace@[k],
                        ) by {
                            if k < trace_mid.len() {
                                assert(trace@[k] == trace_mid[k]);
                            }
                        }
                    }
                    return Err(err);
                }
            };
            proof {
                assert(old(trace)@ =~= trace@.subrange(0, old(trace)@.len() as int));
                assert(trace_mid =~= trace@.subrange(0, trace_mid.len() as int));
                assert forall|k: int|
                    old(trace)@.len() <= k < trace@.len() implies trace_record_ok(trace@[k]) by {
                    if k < trace_mid.len() {
                        assert(trace@[k] == trace_mid[k]);
                    }
                }
            }
            rem = rem2;
            node = SExpr::create_binary(e.plan().duplicate(), l_opt, r_opt);
            proof {
                assert(e@ == (TreeView::Binary {
                    plan: e@.plan(),
                    left: Box::new(cl@),
                    right: Box::new(cr@),
                }));
                assert forall|m: Interp| #[trigger] rows_of(node@, m) == rows_of(e@, m) by {
                    crate::semantics::lemma_binary_congruence(
                        e@.plan(),
                        l_opt@,
                        r_opt@,
                        cl@,
                        cr@,
                        m,
                    );
                }
            }
        }
        let ghost node_view = node@;
        let ghost trace_before_rules = trace@;
        let mut idx: usize = 0;
        while idx < self.rules.len()
            invariant
                idx <= self.rules.len(),
                forall|j: int|
                    0 <= j < idx ==> !(spec_matches(#[trigger] rule_pattern(rules_seq[j]), node_view)
                        && rule_candidates(rules_seq[j], node_view).len() > 0),
                node@ == node_view,
                trace@ == trace_before_rules,
            decreases self.rules.len() - idx,
        {
            let rule = &self.rules[idx];
            if crate::matcher::matches(rule.pattern(), &node) {
                let mut tr = TransformResult::new();
                let apply_res = rule.apply(&node, &mut tr);
                match apply_res {
                    Ok(()) => {}
                    Err(err) => {
                        proof {
                            assert(false);
                        }
                        return Err(err);
                    }
                }
                proof {
                    assert(tr@ =~= rule_candidates(rules_seq[idx as int], node_view));
                }
                let results = tr.results();
                if results.len() > 0 {
                    proof {
                        assert(results@.map_values(|x: SExpr| x@)[0] == results@[0]@);
                    }
                    if rem == 0 {
                        return Err(OptimizerError::IterationCapExceeded);
                    }
                    let candidate = results[0].duplicate();
                    proof {
                        assert(candidate@ == rule_candidates(rules_seq[idx as int], node_view)[0]);
                        lemma_rule_candidates_wf(rules_seq[idx as int], node_view);
                        assert forall|m: Interp| #[trigger] rows_of(candidate@, m) == rows_of(
                            node_view,
                            m,
                        ) by {
                            lemma_rule_preserves_rows(rules_seq[idx as int], node_view, m);
                        }
                    }
                    let after_copy = candidate.duplicate();
                    let fired_id = rule.id();
                    trace.push(TraceRecord { rule: fired_id, before: node, after: after_copy });
                    let ghost trace_pushed = trace@;
                    proof {
                        assert(trace_pushed[trace_pushed.len() - 1].before@ == node_view);
                        assert(trace_pushed[trace_pushed.len() - 1].after@ == candidate@);
                        assert(trace_record_ok(trace_pushed[trace_pushed.len() - 1]));
                    }
                    let rec = self.optimize_rec(&candidate, rem - 1, trace);
                    proof {
                        assert(old(trace)@ =~= trace@.subrange(0, old(trace)@.len() as int));
                        assert(trace_pushed =~= trace@.subrange(0, trace_pushed.len() as int));
                        assert forall|k: int|
                            old(trace)@.len() <= k < trace@.len() implies trace_record_ok(
                            trace@[k],
                        ) by {
                            if k < trace_pushed.len() {
                                assert(trace@[k] == trace_pushed[k]);
                                if k < trace_before_rules.len() {
                                    assert(trace_pushed[k] == trace_before_rules[k]);
                                }
                            }
                        }
                    }
                    match rec {
                        Ok(p) => {
                            return Ok(p);
                        }
                        Err(err) => {
                            return Err(err);
                        }
                    }
                }
            }
            idx = idx + 1;
        }
        proof {
            assert(node_stable(rules_seq, node_view));
            assert(tree_stable(rules_seq, node_view));
            if tree_stable(rules_seq, e@) {
                assert(node_view == e@);
                assert(rem == budget);
            }
        }
        Ok((node, rem))
    }

    /// Rewrite `expr` to a stable tree.
    ///
    /// On success the returned tree is well-formed, pattern-free and stable
    /// (no registered rule fires anywhere in it), it produces the same rows
    /// as `expr` under every interpretation, and an input that is already
    /// stable comes back unchanged, with an empty trace — running the
    /// optimizer twice therefore yields the same tree as running it once.
    /// Each substitution made is reported as one rows-preserving trace
    /// record, in the order the substitutions happened, and their number is
    /// bounded by how far the rewrite measure dropped. Exceeding the
    /// substitution cap is an explicit fault, never a silent truncation,
    /// and it cannot happen when the cap covers the input's rewrite
    /// measure: success is then owed.
    pub fn optimize(&self, expr: &SExpr) -> (r: Result<
        (SExpr, Vec<TraceRecord>),
        OptimizerError,
    >)
        requires
            expr@.wf(),
            expr@.no_patterns(),
        ensures
            match r {
                Ok(p) => {
                    &&& p.0@.wf()
                    &&& p.0@.no_patterns()
                    &&& tree_stable(self.spec_rules(), p.0@)
                    &&& (forall|m: Interp| #[trigger] rows_of(p.0@, m) == rows_of(expr@, m))
                    &&& (tree_stable(self.spec_rules(), expr@) ==> p.0@ == expr@)
                    &&& (tree_stable(self.spec_rules(), expr@) ==> p.1@.len() == 0)
                    &&& p.1@.len() <= self.cap()
                    &&& rewrite_bound(p.0@) <= rewrite_bound(expr@)
                    &&& p.1@.len() <= rewrite_bound(expr@) - rewrite_bound(p.0@)
                    &&& (forall|k: int| 0 <= k < p.1@.len() ==> trace_record_ok(#[trigger] p.1@[k]))
                },
                Err(err) => err == OptimizerError::IterationCapExceeded,
            },
            tree_stable(self.spec_rules(), expr@) ==> r is Ok,
            rewrite_bound(expr@) <= self.cap() + 1 ==> r is Ok,
    {
        let mut trace: Vec<TraceRecord> = Vec::new();
        match self.optimize_rec(expr, self.max_substitutions, &mut trace) {
            Ok(p) => Ok((p.0, trace)),
            Err(err) => Err(err),
        }
    }
}

} // verus!
