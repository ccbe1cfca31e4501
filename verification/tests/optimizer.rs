use plan_rewrite::errors::OptimizerError;
use plan_rewrite::optimizer::Optimizer;
use plan_rewrite::plans::Filter;
use plan_rewrite::plans::PatternPlan;
use plan_rewrite::plans::PlanNode;
use plan_rewrite::plans::RelOp;
use plan_rewrite::plans::Scalar;
use plan_rewrite::plans::Scan;
use plan_rewrite::rule::Rule;
use plan_rewrite::rule::RuleEliminateFilter;
use plan_rewrite::rule::RuleID;
use plan_rewrite::rule::TransformResult;
use plan_rewrite::sexpr::SExpr;

fn scan() -> SExpr {
    SExpr::create_leaf(PlanNode::Scan(Scan { table: 7 }))
}

fn filter_over(predicates: Vec<Scalar>, child: SExpr) -> SExpr {
    SExpr::create_unary(PlanNode::Filter(Filter { predicates, is_having: false }), child)
}

fn optimizer() -> Optimizer {
    Optimizer::new(vec![Rule::EliminateFilter(RuleEliminateFilter::new())])
}

fn p() -> Scalar {
    Scalar { id: 1 }
}

fn q() -> Scalar {
    Scalar { id: 2 }
}

#[test]
fn duplicate_predicates_are_removed() {
    let tree = filter_over(vec![p(), q(), p()], scan());
    let (out, trace) = optimizer().optimize(&tree).unwrap();
    let expected = filter_over(vec![p(), q()], scan());
    assert!(out.same_as(&expected));
    assert_eq!(trace.len(), 1);
    assert_eq!(trace[0].rule, RuleID::EliminateFilter);
}

#[test]
fn empty_filter_is_dropped() {
    let tree = filter_over(vec![], scan());
    let (out, trace) = optimizer().optimize(&tree).unwrap();
    assert!(out.same_as(&scan()));
    assert_eq!(trace.len(), 1);
}

#[test]
fn unique_predicates_are_kept_unchanged() {
    let tree = filter_over(vec![p(), q()], scan());
    let (out, trace) = optimizer().optimize(&tree).unwrap();
    assert!(out.same_as(&tree));
    assert_eq!(trace.len(), 0);
}

#[test]
fn filter_pattern_does_not_match_join() {
    let pattern = SExpr::create_unary(
        PlanNode::Pattern(PatternPlan { plan_type: RelOp::Filter }),
        SExpr::create_leaf(PlanNode::Pattern(PatternPlan { plan_type: RelOp::Pattern })),
    );
    let join = SExpr::create_binary(
        PlanNode::Join(plan_rewrite::plans::Join { join_expr: None }),
        scan(),
        scan(),
    );
    assert!(!plan_rewrite::matcher::matches(&pattern, &join));
}

#[test]
fn nested_filter_only_outer_rewritten() {
    let inner = filter_over(vec![q()], scan());
    let tree = filter_over(vec![p(), p()], inner);
    let (out, trace) = optimizer().optimize(&tree).unwrap();
    let expected = filter_over(vec![p()], filter_over(vec![q()], scan()));
    assert!(out.same_as(&expected));
    assert_eq!(trace.len(), 1);
}

#[test]
fn optimizer_is_idempotent_on_its_output() {
    let tree = filter_over(vec![p(), q(), p(), q()], scan());
    let (once, _) = optimizer().optimize(&tree).unwrap();
    let (twice, trace) = optimizer().optimize(&once).unwrap();
    assert!(twice.same_as(&once));
    assert_eq!(trace.len(), 0);
}

#[test]
fn iteration_cap_fires_instead_of_rewriting() {
    let tree = filter_over(vec![p(), p()], scan());
    let driver = Optimizer::with_cap(
        vec![Rule::EliminateFilter(RuleEliminateFilter::new())],
        0,
    );
    let err = driver.optimize(&tree).unwrap_err();
    assert_eq!(err, OptimizerError::IterationCapExceeded);
}

#[test]
fn wildcard_pattern_matches_any_node() {
    let wildcard = SExpr::create_leaf(PlanNode::Pattern(PatternPlan { plan_type: RelOp::Pattern }));
    assert!(plan_rewrite::matcher::matches(&wildcard, &scan()));
    assert!(plan_rewrite::matcher::matches(&wildcard, &filter_over(vec![p()], scan())));
}

#[test]
fn rule_reports_identity_and_pattern() {
    let rule = RuleEliminateFilter::new();
    assert_eq!(rule.id(), RuleID::EliminateFilter);
    let pattern = rule.pattern();
    assert_eq!(pattern.plan().rel_op(), RelOp::Filter);
    assert_eq!(pattern.child(0).unwrap().plan().rel_op(), RelOp::Pattern);
}

#[test]
fn apply_on_wrong_payload_is_downcast_mismatch() {
    let rule = RuleEliminateFilter::new();
    let mut result = TransformResult::new();
    let err = rule.apply(&scan(), &mut result).unwrap_err();
    assert_eq!(err, OptimizerError::DowncastMismatch);
    assert_eq!(result.results().len(), 0);
}

#[test]
fn child_access_beyond_arity_is_out_of_bounds() {
    let tree = filter_over(vec![p()], scan());
    assert!(tree.child(0).is_ok());
    assert_eq!(tree.child(1).unwrap_err(), OptimizerError::OutOfBounds);
    assert_eq!(scan().child(0).unwrap_err(), OptimizerError::OutOfBounds);
}

#[test]
fn cap_covering_the_rewrite_measure_guarantees_success() {
    // The tree's rewrite measure is its node count plus its filter
    // predicates: two nodes and three predicates here, so any cap of four
    // or more substitutions is guaranteed to suffice.
    let tree = filter_over(vec![p(), p(), q()], scan());
    let driver = Optimizer::with_cap(
        vec![Rule::EliminateFilter(RuleEliminateFilter::new())],
        4,
    );
    let (out, trace) = driver.optimize(&tree).unwrap();
    assert!(out.same_as(&filter_over(vec![p(), q()], scan())));
    assert_eq!(trace.len(), 1);
}
