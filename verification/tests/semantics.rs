use plan_rewrite::optimizer::Optimizer;
use plan_rewrite::plans::Filter;
use plan_rewrite::plans::PlanNode;
use plan_rewrite::plans::RelOp;
use plan_rewrite::plans::Scalar;
use plan_rewrite::plans::Scan;
use plan_rewrite::rule::Rule;
use plan_rewrite::rule::RuleEliminateFilter;
use plan_rewrite::sexpr::SExpr;

/// Rows of one sample table.
fn table_rows(table: u64) -> Vec<i64> {
    match table {
        0 => vec![1, 2, 3, 4, 5, 6],
        _ => vec![10, 15, 20, 25, 30],
    }
}

/// Whether a sample predicate holds of a row: predicate `id` keeps the
/// rows divisible by `id + 1`.
fn predicate_holds(p: Scalar, row: i64) -> bool {
    row % (p.id as i64 + 1) == 0
}

/// Evaluate a plan tree over the sample tables.
fn eval_rows(tree: &SExpr) -> Vec<i64> {
    match tree.plan() {
        PlanNode::Scan(scan) => table_rows(scan.table),
        PlanNode::Filter(filter) => {
            let child_rows = eval_rows(tree.child(0).unwrap());
            child_rows
                .into_iter()
                .filter(|row| filter.predicates.iter().all(|p| predicate_holds(*p, *row)))
                .collect()
        }
        _ => panic!("operator not used by these scenarios"),
    }
}

fn optimizer() -> Optimizer {
    Optimizer::new(vec![Rule::EliminateFilter(RuleEliminateFilter::new())])
}

#[test]
fn deduplicated_filter_keeps_the_same_rows() {
    let tree = SExpr::create_unary(
        PlanNode::Filter(Filter {
            predicates: vec![Scalar { id: 1 }, Scalar { id: 2 }, Scalar { id: 1 }],
            is_having: false,
        }),
        SExpr::create_leaf(PlanNode::Scan(Scan { table: 0 })),
    );
    let (out, trace) = optimizer().optimize(&tree).unwrap();
    assert_eq!(trace.len(), 1);
    assert_eq!(eval_rows(&out), eval_rows(&tree));
    assert_eq!(eval_rows(&out), vec![6]);
}

#[test]
fn dropped_filter_keeps_the_same_rows() {
    let tree = SExpr::create_unary(
        PlanNode::Filter(Filter { predicates: vec![], is_having: false }),
        SExpr::create_leaf(PlanNode::Scan(Scan { table: 1 })),
    );
    let (out, _) = optimizer().optimize(&tree).unwrap();
    assert_eq!(out.plan().rel_op(), RelOp::Scan);
    assert_eq!(eval_rows(&out), eval_rows(&tree));
    assert_eq!(eval_rows(&out), vec![10, 15, 20, 25, 30]);
}

#[test]
fn every_trace_record_preserves_rows() {
    let tree = SExpr::create_unary(
        PlanNode::Filter(Filter {
            predicates: vec![Scalar { id: 0 }, Scalar { id: 0 }, Scalar { id: 4 }],
            is_having: true,
        }),
        SExpr::create_unary(
            PlanNode::Filter(Filter {
                predicates: vec![Scalar { id: 2 }, Scalar { id: 2 }],
                is_having: false,
            }),
            SExpr::create_leaf(PlanNode::Scan(Scan { table: 1 })),
        ),
    );
    let (_, trace) = optimizer().optimize(&tree).unwrap();
    assert!(!trace.is_empty());
    for record in &trace {
        assert_eq!(eval_rows(&record.before), eval_rows(&record.after));
    }
}
