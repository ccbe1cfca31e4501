use plan_rewrite::comparisons::BooleanColumn;
use plan_rewrite::comparisons::BooleanSimdGt;
use plan_rewrite::comparisons::ComparisonGtImpl;

#[test]
fn byte_strings_compare_lexicographically() {
    assert!(ComparisonGtImpl::eval_binary(&vec![1, 2], &vec![1, 1]));
    assert!(!ComparisonGtImpl::eval_binary(&vec![1, 1], &vec![1, 2]));
    assert!(!ComparisonGtImpl::eval_binary(&vec![1, 2], &vec![1, 2]));
    assert!(ComparisonGtImpl::eval_binary(&vec![1, 2], &vec![1]));
    assert!(!ComparisonGtImpl::eval_binary(&vec![1], &vec![1, 2]));
    assert!(!ComparisonGtImpl::eval_binary(&vec![], &vec![]));
    assert!(ComparisonGtImpl::eval_binary(&vec![2], &vec![1, 255]));
}

#[test]
fn boolean_vector_vector_is_and_not() {
    let lhs = BooleanColumn { values: vec![true, true, false, false] };
    let rhs = BooleanColumn { values: vec![true, false, true, false] };
    let out = BooleanSimdGt::vector_vector(&lhs, &rhs);
    assert_eq!(out.values, vec![false, true, false, false]);
}

#[test]
fn boolean_vector_const_depends_on_constant() {
    let lhs = BooleanColumn { values: vec![true, false] };
    let against_true = BooleanSimdGt::vector_const(&lhs, true);
    assert_eq!(against_true.values, vec![false, false]);
    let against_false = BooleanSimdGt::vector_const(&lhs, false);
    assert_eq!(against_false.values, vec![true, false]);
}

#[test]
fn boolean_const_vector_mirrors_vector_const() {
    let rhs = BooleanColumn { values: vec![true, false] };
    let from_true = BooleanSimdGt::const_vector(true, &rhs);
    assert_eq!(from_true.values, vec![false, true]);
    let from_false = BooleanSimdGt::const_vector(false, &rhs);
    assert_eq!(from_false.values, vec![false, false]);
}
