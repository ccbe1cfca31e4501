//! Structural pattern matching of plan trees.
//!
//! A pattern is itself a tree whose nodes carry [`PatternPlan`] payloads. A
//! node whose kind is the wildcard `RelOp::Pattern` matches any single node
//! and is not recursively inspected; a node of a concrete kind matches only
//! a node of that exact kind with the same arity, and the matcher then
//! recurses into each corresponding child. Matching inspects only operator
//! kinds and tree shape, never operator-specific fields.

use vstd::prelude::*;

use crate::plans::RelOp;
use crate::sexpr::SExpr;
use crate::sexpr::TreeView;

verus! {

/// The structural matching relation: the pattern's root is the wildcard, or
/// the two roots have the same operator kind and arity and each child
/// pattern matches the corresponding candidate child.
pub open spec fn spec_matches(pattern: TreeView, candidate: TreeView) -> bool
    decreases pattern,
{
    if pattern.rel_op() == RelOp::Pattern {
        true
    } else {
        &&& pattern.rel_op() == candidate.rel_op()
        &&& pattern.arity() == candidate.arity()
        &&& match (pattern, candidate) {
            (
                TreeView::Unary { child: pc, .. },
                TreeView::Unary { child: cc, .. },
            ) => spec_matches(*pc, *cc),
            (
                TreeView::Binary { left: pl, right: pr, .. },
                TreeView::Binary { left: cl, right: cr, .. },
            ) => spec_matches(*pl, *cl) && spec_matches(*pr, *cr),
            _ => true,
        }
    }
}

/// Whether `candidate` structurally matches `pattern`.
pub fn matches(pattern: &SExpr, candidate: &SExpr) -> (r: bool)
    ensures
        r == spec_matches(pattern@, candidate@),
{
    pattern.matches_rec(candidate)
}

} // verus!
