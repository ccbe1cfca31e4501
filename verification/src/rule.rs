//! The rewrite rule abstraction and the filter-elimination exemplar.
//!
//! A rule owns a pattern tree built at construction time and, applied to a
//! subtree that structurally matched that pattern, emits zero or more
//! semantically equivalent replacement subtrees into a [`TransformResult`].
//! The rule set is closed, so [`Rule`] is a sum over the concrete rule
//! types; the driver relies only on the identity / pattern / apply contract.

use vstd::prelude::*;

use crate::errors::OptimizerError;
use crate::plans::Filter;
use crate::plans::PatternPlan;
use crate::plans::PlanNode;
use crate::plans::PlanNodeView;
use crate::plans::RelOp;
use crate::plans::Scalar;
use crate::sexpr::SExpr;
use crate::sexpr::TreeView;

verus! {

/// The identity of a rule implementation: one value per concrete rule type,
/// stable for the process lifetime and usable for registration order and
/// diagnostics.
#[derive(Clone, Copy, PartialEq, Eq, Structural, Debug, Hash)]
pub enum RuleID {
    EliminateFilter,
}

/// An accumulator for the candidate rewrites one rule application produced:
/// an ordered sequence of replacement subtrees, the first being the default
/// acceptance. Empty means the rule did not fire.
pub struct TransformResult {
    results: Vec<SExpr>,
}

impl View for TransformResult {
    type V = Seq<TreeView>;

    closed spec fn view(&self) -> Seq<TreeView> {
        self.results@.map_values(|e: SExpr| e@)
    }
}

impl TransformResult {
    /// An empty accumulator.
    pub fn new() -> (r: TransformResult)
        ensures
            r@ == Seq::<TreeView>::empty(),
    {
        let r = TransformResult { results: Vec::new() };
        proof {
            assert(r@ =~= Seq::<TreeView>::empty());
        }
        r
    }

    /// Append one candidate replacement subtree.
    pub fn add_result(&mut self, expr: SExpr)
        ensures
            final(self)@ == old(self)@.push(expr@),
    {
        self.results.push(expr);
        proof {
            assert(self@ =~= old(self)@.push(expr@));
        }
    }

    /// The candidates collected so far, in preference order.
    pub fn results(&self) -> (r: &Vec<SExpr>)
        ensures
            r@.map_values(|e: SExpr| e@) == self@,
    {
        &self.results
    }
}

/// The scalars of `s` with every later duplicate removed: each distinct
/// scalar keeps its first occurrence, in order.
pub open spec fn dedup_spec(s: Seq<Scalar>) -> Seq<Scalar>
    decreases s.len(),
{
    if s.len() == 0 {
        Seq::<Scalar>::empty()
    } else {
        let rest = dedup_spec(s.drop_last());
        if rest.contains(s.last()) {
            rest
        } else {
            rest.push(s.last())
        }
    }
}

/// Deduplication keeps exactly the scalars of the input.
pub proof fn lemma_dedup_contains(s: Seq<Scalar>, x: Scalar)
    ensures
        dedup_spec(s).contains(x) == s.contains(x),
    decreases s.len(),
{
    if s.len() > 0 {
        lemma_dedup_contains(s.drop_last(), x);
        let rest = dedup_spec(s.drop_last());
        if s.contains(x) {
            if x == s.last() {
                if rest.contains(x) {
                    assert(dedup_spec(s) == rest);
                } else {
                    assert(dedup_spec(s) == rest.push(x));
                    assert(dedup_spec(s)[dedup_spec(s).len() - 1] == x);
                    assert(dedup_spec(s).contains(x));
                }
            } else {
                let i = choose|i: int| 0 <= i < s.len() && s[i] == x;
                assert(s.drop_last()[i] == x);
                assert(s.drop_last().contains(x));
                assert(rest.contains(x));
                let j = choose|j: int| 0 <= j < rest.len() && rest[j] == x;
                if !rest.contains(s.last()) {
                    assert(dedup_spec(s) == rest.push(s.last()));
                    assert(dedup_spec(s)[j] == x);
                }
                assert(dedup_spec(s).contains(x));
            }
        } else {
            assert(!s.drop_last().contains(x)) by {
                if s.drop_last().contains(x) {
                    let i = choose|i: int|
                        0 <= i < s.drop_last().len() && s.drop_last()[i] == x;
                    assert(s[i] == x);
                }
            }
            assert(s.last() != x) by {
                assert(s[s.len() - 1] == s.last());
            }
            if dedup_spec(s).contains(x) {
                let i = choose|i: int| 0 <= i < dedup_spec(s).len() && dedup_spec(s)[i] == x;
                if rest.contains(s.last()) {
                    assert(rest[i] == x);
                } else {
                    assert(dedup_spec(s) == rest.push(s.last()));
                    if i < rest.len() {
                        assert(rest[i] == x);
                    } else {
                        assert(dedup_spec(s)[i] == s.last());
                    }
                }
            }
        }
    }
}

/// Deduplication never lengthens a sequence.
pub proof fn lemma_dedup_len(s: Seq<Scalar>)
    ensures
        dedup_spec(s).len() <= s.len(),
    decreases s.len(),
{
    if s.len() > 0 {
        lemma_dedup_len(s.drop_last());
    }
}

/// A deduplicated sequence holds no scalar twice.
pub proof fn lemma_dedup_distinct(s: Seq<Scalar>)
    ensures
        forall|i: int, j: int|
            0 <= i < j < dedup_spec(s).len() ==> dedup_spec(s)[i] != dedup_spec(s)[j],
    decreases s.len(),
{
    if s.len() > 0 {
        lemma_dedup_distinct(s.drop_last());
        let rest = dedup_spec(s.drop_last());
        if !rest.contains(s.last()) {
            assert forall|i: int, j: int|
                0 <= i < j < dedup_spec(s).len() implies dedup_spec(s)[i] != dedup_spec(
                s,
            )[j] by {
                if j < rest.len() {
                } else {
                    assert(dedup_spec(s)[j] == s.last());
                    assert(dedup_spec(s)[i] == rest[i]);
                    assert(rest.contains(rest[i]));
                }
            }
        }
    }
}

/// A sequence without repeated scalars is already deduplicated.
pub proof fn lemma_dedup_of_distinct(s: Seq<Scalar>)
    requires
        forall|i: int, j: int| 0 <= i < j < s.len() ==> s[i] != s[j],
    ensures
        dedup_spec(s) == s,
    decreases s.len(),
{
    if s.len() > 0 {
        lemma_dedup_of_distinct(s.drop_last());
        if dedup_spec(s.drop_last()).contains(s.last()) {
            let i = choose|i: int|
                0 <= i < s.drop_last().len() && s.drop_last()[i] == s.last();
            assert(s[i] == s[s.len() - 1]);
            assert(false);
        }
        assert(dedup_spec(s) =~= s);
    } else {
        assert(dedup_spec(s) =~= s);
    }
}

/// Deduplication is idempotent.
pub proof fn lemma_dedup_idempotent(s: Seq<Scalar>)
    ensures
        dedup_spec(dedup_spec(s)) == dedup_spec(s),
{
    lemma_dedup_distinct(s);
    lemma_dedup_of_distinct(dedup_spec(s));
}

/// Whether the vector holds the given scalar.
fn contains_scalar(v: &Vec<Scalar>, x: Scalar) -> (r: bool)
    ensures
        r == v@.contains(x),
{
    let mut i: usize = 0;
    while i < v.len()
        invariant
            i <= v.len(),
            forall|j: int| 0 <= j < i ==> v@[j] != x,
        decreases v.len() - i,
    {
        if v[i].id == x.id {
            return true;
        }
        i = i + 1;
    }
    false
}

/// The scalars of `v` with duplicates removed, keeping the first occurrence
/// of each distinct scalar, in order.
pub fn dedup_scalars(v: &Vec<Scalar>) -> (r: Vec<Scalar>)
    ensures
        r@ == dedup_spec(v@),
{
    let mut out: Vec<Scalar> = Vec::new();
    let mut i: usize = 0;
    while i < v.len()
        invariant
            i <= v.len(),
            out@ == dedup_spec(v@.take(i as int)),
        decreases v.len() - i,
    {
        proof {
            assert(v@.take(i as int + 1).drop_last() =~= v@.take(i as int));
            assert(v@.take(i as int + 1).last() == v@[i as int]);
        }
        if !contains_scalar(&out, v[i]) {
            out.push(v[i]);
        }
        i = i + 1;
    }
    proof {
        assert(v@.take(v@.len() as int) =~= v@);
    }
    out
}

/// The pattern tree of the filter-elimination rule: a `Filter` node over
/// one wildcard child.
pub open spec fn eliminate_filter_pattern() -> TreeView {
    TreeView::Unary {
        plan: PlanNodeView::Pattern { plan_type: RelOp::Filter },
        child: Box::new(TreeView::Leaf { plan: PlanNodeView::Pattern { plan_type: RelOp::Pattern } }),
    }
}

/// The candidates the filter-elimination rule emits for a matched subtree:
/// with every predicate a duplicate of an earlier one removed, an empty
/// conjunction drops the filter node, a shortened one keeps a filter over
/// the deduplicated predicates, and an unchanged one emits nothing.
pub open spec fn eliminate_filter_candidates(t: TreeView) -> Seq<TreeView> {
    match t.plan() {
        PlanNodeView::Filter { predicates, is_having } => {
            let deduped = dedup_spec(predicates);
            if deduped.len() == 0 {
                seq![t.child_at(0)]
            } else if deduped.len() < predicates.len() {
                seq![
                    TreeView::Unary {
                        plan: PlanNodeView::Filter { predicates: deduped, is_having },
                        child: Box::new(t.child_at(0)),
                    },
                ]
            } else {
                Seq::<TreeView>::empty()
            }
        }
        _ => Seq::<TreeView>::empty(),
    }
}

/// The rule that simplifies a `Filter` node: predicates are deduplicated by
/// value, and a filter left with no predicates is dropped entirely.
pub struct RuleEliminateFilter {
    id: RuleID,
    pattern: SExpr,
}

impl RuleEliminateFilter {
    #[verifier::type_invariant]
    closed spec fn type_inv(self) -> bool {
        self.id == RuleID::EliminateFilter && self.pattern@ == eliminate_filter_pattern()
    }

    /// A fresh rule object with its pattern (a `Filter` over one wildcard)
    /// built once.
    pub fn new() -> (r: RuleEliminateFilter) {
        RuleEliminateFilter {
            id: RuleID::EliminateFilter,
            pattern: SExpr::create_unary(
                PlanNode::Pattern(PatternPlan { plan_type: RelOp::Filter }),
                SExpr::create_leaf(
                    PlanNode::Pattern(crate::plans::PatternPlan { plan_type: RelOp::Pattern }),
                ),
            ),
        }
    }

    /// The stable identity of this rule.
    pub fn id(&self) -> (r: RuleID)
        ensures
            r == RuleID::EliminateFilter,
    {
        proof {
            use_type_invariant(&*self);
        }
        self.id
    }

    /// The shape this rule matches.
    pub fn pattern(&self) -> (r: &SExpr)
        ensures
            r@ == eliminate_filter_pattern(),
    {
        proof {
            use_type_invariant(&*self);
        }
        &self.pattern
    }

    /// Emit this rule's candidates for `s_expr` into `state`.
    ///
    /// A payload that is not a `Filter` is a downcast mismatch; a `Filter`
    /// without its child can only be an ill-formed node and is an
    /// out-of-bounds fault. Neither occurs on subtrees that matched the
    /// rule's pattern inside a well-formed plan.
    pub fn apply(&self, s_expr: &SExpr, state: &mut TransformResult) -> (r: Result<
        (),
        OptimizerError,
    >)
        ensures
            match r {
                Ok(()) => final(state)@ == old(state)@ + eliminate_filter_candidates(s_expr@),
                Err(e) => final(state)@ == old(state)@,
            },
            r is Ok <==> (s_expr@.plan() is Filter && (eliminate_filter_candidates(s_expr@).len()
                == 0 || s_expr@.arity() >= 1)),
            crate::matcher::spec_matches(eliminate_filter_pattern(), s_expr@)
                && s_expr@.no_patterns() ==> r is Ok,
    {
        let filter = match s_expr.plan() {
            PlanNode::Filter(f) => f,
            _ => {
                proof {
                    assert(final(state)@ =~= old(state)@);
                }
                return Err(OptimizerError::DowncastMismatch);
            }
        };
        let ghost old_results = state@;
        let deduped = dedup_scalars(&filter.predicates);
        proof {
            lemma_dedup_len(filter.predicates@);
        }
        if deduped.len() == 0 {
            let child = match s_expr.child(0) {
                Ok(c) => c,
                Err(e) => {
                    return Err(e);
                }
            };
            state.add_result(child.duplicate());
            proof {
                assert(state@ =~= old_results + eliminate_filter_candidates(s_expr@));
            }
        } else if deduped.len() != filter.predicates.len() {
            let child = match s_expr.child(0) {
                Ok(c) => c,
                Err(e) => {
                    return Err(e);
                }
            };
            let new_filter = PlanNode::Filter(
                Filter { predicates: deduped, is_having: filter.is_having },
            );
            state.add_result(SExpr::create_unary(new_filter, child.duplicate()));
            proof {
                assert(state@ =~= old_results + eliminate_filter_candidates(s_expr@));
            }
        } else {
            proof {
                assert(state@ =~= old_results + eliminate_filter_candidates(s_expr@));
            }
        }
        Ok(())
    }
}

/// The weight one node payload contributes to the rewrite measure: a
/// filter counts its predicates, every other payload counts nothing.
pub open spec fn plan_weight(p: PlanNodeView) -> nat {
    match p {
        PlanNodeView::Filter { predicates, .. } => predicates.len(),
        _ => 0,
    }
}

/// The rewrite measure of a plan tree: its node count plus the predicate
/// count of every filter in it. Every candidate a registered rule emits is
/// strictly smaller in this measure, so it bounds how many substitutions
/// any optimization of the tree can make.
pub open spec fn rewrite_bound(t: TreeView) -> nat
    decreases t,
{
    match t {
        TreeView::Leaf { plan } => 1 + plan_weight(plan),
        TreeView::Unary { plan, child } => 1 + plan_weight(plan) + rewrite_bound(*child),
        TreeView::Binary { plan, left, right } => 1 + plan_weight(plan) + rewrite_bound(*left)
            + rewrite_bound(*right),
    }
}

/// Every candidate a rule emits for a well-formed subtree is strictly
/// smaller in the rewrite measure than the subtree it replaces.
pub proof fn lemma_rule_candidates_decrease(rule: Rule, t: TreeView)
    requires
        t.wf(),
    ensures
        forall|i: int|
            0 <= i < rule_candidates(rule, t).len() ==> rewrite_bound(
                #[trigger] rule_candidates(rule, t)[i],
            ) < rewrite_bound(t),
{
    match rule {
        Rule::EliminateFilter(_) => {
            match t.plan() {
                PlanNodeView::Filter { predicates, is_having } => {
                    if t is Unary {
                        let child = t.child_at(0);
                        let deduped = dedup_spec(predicates);
                        lemma_dedup_len(predicates);
                        assert(t == (TreeView::Unary { plan: t.plan(), child: Box::new(child) }));
                        assert(rewrite_bound(t) == 1 + predicates.len() + rewrite_bound(child));
                        if deduped.len() == 0 {
                            assert(eliminate_filter_candidates(t) == seq![child]);
                        } else if deduped.len() < predicates.len() {
                            let candidate = TreeView::Unary {
                                plan: PlanNodeView::Filter { predicates: deduped, is_having },
                                child: Box::new(child),
                            };
                            assert(eliminate_filter_candidates(t) == seq![candidate]);
                            assert(rewrite_bound(candidate) == 1 + deduped.len() + rewrite_bound(
                                child,
                            ));
                        }
                    }
                }
                _ => {}
            }
        }
    }
}

/// A filter node the rule has already rebuilt is not rewritten again: the
/// candidates of a filter over deduplicated, non-empty predicates are
/// empty. With this, one firing of the rule cannot feed a second.
pub proof fn lemma_deduplicated_filter_is_stable(
    predicates: Seq<Scalar>,
    is_having: bool,
    child: TreeView,
)
    requires
        dedup_spec(predicates).len() > 0,
    ensures
        eliminate_filter_candidates(
            TreeView::Unary {
                plan: PlanNodeView::Filter { predicates: dedup_spec(predicates), is_having },
                child: Box::new(child),
            },
        ).len() == 0,
{
    lemma_dedup_idempotent(predicates);
}

/// Every candidate a rule emits for a well-formed, pattern-free subtree is
/// itself well-formed and pattern-free.
pub proof fn lemma_rule_candidates_wf(rule: Rule, t: TreeView)
    requires
        t.wf(),
        t.no_patterns(),
    ensures
        forall|i: int|
            0 <= i < rule_candidates(rule, t).len() ==> (#[trigger] rule_candidates(rule, t)[i]).wf()
                && rule_candidates(rule, t)[i].no_patterns(),
{
    match rule {
        Rule::EliminateFilter(_) => {
            match t.plan() {
                PlanNodeView::Filter { predicates, is_having } => {
                    if t is Unary {
                        let child = t.child_at(0);
                        let deduped = dedup_spec(predicates);
                        if deduped.len() == 0 {
                            assert(eliminate_filter_candidates(t) == seq![child]);
                        } else if deduped.len() < predicates.len() {
                            let candidate = TreeView::Unary {
                                plan: PlanNodeView::Filter { predicates: deduped, is_having },
                                child: Box::new(child),
                            };
                            assert(eliminate_filter_candidates(t) == seq![candidate]);
                            assert(candidate.wf());
                        }
                    }
                }
                _ => {}
            }
        }
    }
}

/// One registered rewrite rule: the rule set is closed, so this is a sum
/// over the concrete rule types.
pub enum Rule {
    EliminateFilter(RuleEliminateFilter),
}

/// The pattern tree of a rule.
pub open spec fn rule_pattern(r: Rule) -> TreeView {
    match r {
        Rule::EliminateFilter(_) => eliminate_filter_pattern(),
    }
}

/// The candidates a rule emits for a subtree that matched its pattern.
pub open spec fn rule_candidates(r: Rule, t: TreeView) -> Seq<TreeView> {
    match r {
        Rule::EliminateFilter(_) => eliminate_filter_candidates(t),
    }
}

impl Rule {
    /// The stable identity of this rule.
    pub fn id(&self) -> (r: RuleID)
        ensures
            match self {
                Rule::EliminateFilter(_) => r == RuleID::EliminateFilter,
            },
    {
        match self {
            Rule::EliminateFilter(rule) => rule.id(),
        }
    }

    /// The shape this rule matches.
    pub fn pattern(&self) -> (r: &SExpr)
        ensures
            r@ == rule_pattern(*self),
    {
        match self {
            Rule::EliminateFilter(rule) => rule.pattern(),
        }
    }

    /// Emit this rule's candidates for `s_expr` into `state`.
    pub fn apply(&self, s_expr: &SExpr, state: &mut TransformResult) -> (r: Result<
        (),
        OptimizerError,
    >)
        ensures
            match r {
                Ok(()) => final(state)@ == old(state)@ + rule_candidates(*self, s_expr@),
                Err(e) => final(state)@ == old(state)@,
            },
            crate::matcher::spec_matches(rule_pattern(*self), s_expr@) && s_expr@.no_patterns()
                ==> r is Ok,
    {
        match self {
            Rule::EliminateFilter(rule) => rule.apply(s_expr, state),
        }
    }
}

} // verus!
