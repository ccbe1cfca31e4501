use plan_rewrite::plans::EvalScalar;
use plan_rewrite::plans::Filter;
use plan_rewrite::plans::Join;
use plan_rewrite::plans::PatternPlan;
use plan_rewrite::plans::PlanNode;
use plan_rewrite::plans::RelOp;
use plan_rewrite::plans::Scalar;
use plan_rewrite::plans::Scan;
use plan_rewrite::sexpr::SExpr;

/// The structural matching relation, restated over the public tree API,
/// used as the oracle the library implementation is held against.
fn reference_matches(pattern: &SExpr, candidate: &SExpr) -> bool {
    if pattern.plan().rel_op() == RelOp::Pattern {
        return true;
    }
    if pattern.plan().rel_op() != candidate.plan().rel_op() {
        return false;
    }
    if pattern.arity() != candidate.arity() {
        return false;
    }
    for i in 0..pattern.arity() {
        if !reference_matches(pattern.child(i).unwrap(), candidate.child(i).unwrap()) {
            return false;
        }
    }
    true
}

struct Lcg(u64);

impl Lcg {
    fn next(&mut self) -> u64 {
        self.0 = self.0.wrapping_mul(6364136223846793005).wrapping_add(1442695040888963407);
        self.0 >> 33
    }
}

fn random_plan(rng: &mut Lcg, depth: u32) -> SExpr {
    let pick = if depth == 0 { 0 } else { rng.next() % 4 };
    match pick {
        1 => SExpr::create_unary(
            PlanNode::Filter(Filter {
                predicates: vec![Scalar { id: rng.next() % 3 }],
                is_having: false,
            }),
            random_plan(rng, depth - 1),
        ),
        2 => SExpr::create_unary(
            PlanNode::EvalScalar(EvalScalar { items: vec![Scalar { id: rng.next() % 3 }] }),
            random_plan(rng, depth - 1),
        ),
        3 => SExpr::create_binary(
            PlanNode::Join(Join { join_expr: None }),
            random_plan(rng, depth - 1),
            random_plan(rng, depth - 1),
        ),
        _ => SExpr::create_leaf(PlanNode::Scan(Scan { table: rng.next() % 4 })),
    }
}

fn random_pattern(rng: &mut Lcg, depth: u32) -> SExpr {
    let pick = if depth == 0 { rng.next() % 2 } else { rng.next() % 5 };
    match pick {
        2 => SExpr::create_unary(
            PlanNode::Pattern(PatternPlan { plan_type: RelOp::Filter }),
            random_pattern(rng, depth - 1),
        ),
        3 => SExpr::create_unary(
            PlanNode::Pattern(PatternPlan { plan_type: RelOp::EvalScalar }),
            random_pattern(rng, depth - 1),
        ),
        4 => SExpr::create_binary(
            PlanNode::Pattern(PatternPlan { plan_type: RelOp::Join }),
            random_pattern(rng, depth - 1),
            random_pattern(rng, depth - 1),
        ),
        1 => SExpr::create_leaf(PlanNode::Pattern(PatternPlan { plan_type: RelOp::Scan })),
        _ => SExpr::create_leaf(PlanNode::Pattern(PatternPlan { plan_type: RelOp::Pattern })),
    }
}

#[test]
fn matcher_agrees_with_reference_on_generated_trees() {
    let mut rng = Lcg(0xfeed);
    for _ in 0..500 {
        let pattern = random_pattern(&mut rng, 3);
        let candidate = random_plan(&mut rng, 3);
        assert_eq!(
            plan_rewrite::matcher::matches(&pattern, &candidate),
            reference_matches(&pattern, &candidate)
        );
    }
}

#[test]
fn wildcard_at_depth_stops_recursion() {
    // Filter over a wildcard matches a filter over anything, however deep.
    let pattern = SExpr::create_unary(
        PlanNode::Pattern(PatternPlan { plan_type: RelOp::Filter }),
        SExpr::create_leaf(PlanNode::Pattern(PatternPlan { plan_type: RelOp::Pattern })),
    );
    let deep = SExpr::create_unary(
        PlanNode::Filter(Filter { predicates: vec![], is_having: false }),
        SExpr::create_binary(
            PlanNode::Join(Join { join_expr: None }),
            SExpr::create_leaf(PlanNode::Scan(Scan { table: 0 })),
            SExpr::create_leaf(PlanNode::Scan(Scan { table: 1 })),
        ),
    );
    assert!(plan_rewrite::matcher::matches(&pattern, &deep));
}

#[test]
fn concrete_pattern_checks_shape_recursively() {
    // Filter over Scan as a fully concrete pattern.
    let pattern = SExpr::create_unary(
        PlanNode::Pattern(PatternPlan { plan_type: RelOp::Filter }),
        SExpr::create_leaf(PlanNode::Pattern(PatternPlan { plan_type: RelOp::Scan })),
    );
    let filter_over_scan = SExpr::create_unary(
        PlanNode::Filter(Filter { predicates: vec![], is_having: false }),
        SExpr::create_leaf(PlanNode::Scan(Scan { table: 0 })),
    );
    let filter_over_filter = SExpr::create_unary(
        PlanNode::Filter(Filter { predicates: vec![], is_having: false }),
        SExpr::create_unary(
            PlanNode::Filter(Filter { predicates: vec![], is_having: true }),
            SExpr::create_leaf(PlanNode::Scan(Scan { table: 0 })),
        ),
    );
    assert!(plan_rewrite::matcher::matches(&pattern, &filter_over_scan));
    assert!(!plan_rewrite::matcher::matches(&pattern, &filter_over_filter));
}
