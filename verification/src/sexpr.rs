//! The immutable, shareable expression tree of a logical plan.
//!
//! An [`SExpr`] holds one [`PlanNode`] payload and zero, one or two owned
//! children; the payload's operator kind fixes the arity. A tree is never
//! mutated after construction: rewriting always builds a new tree, reusing
//! untouched children.

use vstd::prelude::*;

use crate::errors::OptimizerError;
use crate::plans::PlanNode;
use crate::plans::PlanNodeView;
use crate::plans::RelOp;
use crate::plans::rel_op_arity;

verus! {

/// The mathematical value of an [`SExpr`]: a finite tree of plan node
/// values with zero, one or two children.
#[verifier::ext_equal]
pub enum TreeView {
    Leaf { plan: PlanNodeView },
    Unary { plan: PlanNodeView, child: Box<TreeView> },
    Binary { plan: PlanNodeView, left: Box<TreeView>, right: Box<TreeView> },
}

impl TreeView {
    /// The payload at the root of this tree.
    pub open spec fn plan(self) -> PlanNodeView {
        match self {
            TreeView::Leaf { plan } => plan,
            TreeView::Unary { plan, .. } => plan,
            TreeView::Binary { plan, .. } => plan,
        }
    }

    /// The operator kind at the root of this tree.
    pub open spec fn rel_op(self) -> RelOp {
        self.plan().rel_op()
    }

    /// How many children the root has.
    pub open spec fn arity(self) -> nat {
        match self {
            TreeView::Leaf { .. } => 0,
            TreeView::Unary { .. } => 1,
            TreeView::Binary { .. } => 2,
        }
    }

    /// The `i`-th child of the root, for `i` below the arity.
    pub open spec fn child_at(self, i: int) -> TreeView {
        match self {
            TreeView::Leaf { .. } => arbitrary(),
            TreeView::Unary { child, .. } => if i == 0 {
                *child
            } else {
                arbitrary()
            },
            TreeView::Binary { left, right, .. } => if i == 0 {
                *left
            } else if i == 1 {
                *right
            } else {
                arbitrary()
            },
        }
    }

    /// Well-formedness: at every node the number of children equals the
    /// arity that the node's operator kind declares.
    pub open spec fn wf(self) -> bool
        decreases self,
    {
        &&& self.arity() == rel_op_arity(self.rel_op())
        &&& match self {
            TreeView::Leaf { .. } => true,
            TreeView::Unary { child, .. } => child.wf(),
            TreeView::Binary { left, right, .. } => left.wf() && right.wf(),
        }
    }

    /// Whether no node of this tree carries a `Pattern` payload. Real plans
    /// satisfy this; only rule pattern templates do not.
    pub open spec fn no_patterns(self) -> bool
        decreases self,
    {
        &&& !(self.plan() is Pattern)
        &&& match self {
            TreeView::Leaf { .. } => true,
            TreeView::Unary { child, .. } => child.no_patterns(),
            TreeView::Binary { left, right, .. } => left.no_patterns() && right.no_patterns(),
        }
    }
}

/// The children of a plan tree node: relational operators take at most two.
#[derive(Debug)]
enum Children {
    Zero,
    One(Box<SExpr>),
    Two(Box<SExpr>, Box<SExpr>),
}

/// An immutable expression tree over relational operators: one payload and
/// as many owned children as the payload's operator kind declares.
#[derive(Debug)]
pub struct SExpr {
    plan: PlanNode,
    children: Children,
}

/// The tree value that an [`SExpr`] stands for.
closed spec fn tree_view(s: &SExpr) -> TreeView
    decreases s,
{
    match &s.children {
        Children::Zero => TreeView::Leaf { plan: s.plan@ },
        Children::One(c) => TreeView::Unary { plan: s.plan@, child: Box::new(tree_view(c)) },
        Children::Two(l, r) => TreeView::Binary {
            plan: s.plan@,
            left: Box::new(tree_view(l)),
            right: Box::new(tree_view(r)),
        },
    }
}

impl View for SExpr {
    type V = TreeView;

    closed spec fn view(&self) -> TreeView {
        tree_view(self)
    }
}

impl SExpr {
    /// A node with no children, for an operator kind of arity zero.
    pub fn create_leaf(plan: PlanNode) -> (r: SExpr)
        requires
            rel_op_arity(plan@.rel_op()) == 0,
        ensures
            r@ == (TreeView::Leaf { plan: plan@ }),
            r@.wf(),
            r@.no_patterns() == !(plan@ is Pattern),
    {
        SExpr { plan, children: Children::Zero }
    }

    /// A node with one child, for an operator kind of arity one.
    pub fn create_unary(plan: PlanNode, child: SExpr) -> (r: SExpr)
        requires
            rel_op_arity(plan@.rel_op()) == 1,
        ensures
            r@ == (TreeView::Unary { plan: plan@, child: Box::new(child@) }),
            r@.wf() == child@.wf(),
            r@.no_patterns() == (!(plan@ is Pattern) && child@.no_patterns()),
    {
        SExpr { plan, children: Children::One(Box::new(child)) }
    }

    /// A node with two children, for an operator kind of arity two.
    pub fn create_binary(plan: PlanNode, left: SExpr, right: SExpr) -> (r: SExpr)
        requires
            rel_op_arity(plan@.rel_op()) == 2,
        ensures
            r@ == (TreeView::Binary {
                plan: plan@,
                left: Box::new(left@),
                right: Box::new(right@),
            }),
            r@.wf() == (left@.wf() && right@.wf()),
            r@.no_patterns() == (!(plan@ is Pattern) && left@.no_patterns()
                && right@.no_patterns()),
    {
        SExpr { plan, children: Children::Two(Box::new(left), Box::new(right)) }
    }

    /// Read-only access to the payload.
    pub fn plan(&self) -> (r: &PlanNode)
        ensures
            r@ == self@.plan(),
    {
        &self.plan
    }

    /// How many children this node has.
    pub fn arity(&self) -> (r: usize)
        ensures
            r == self@.arity(),
    {
        match &self.children {
            Children::Zero => 0,
            Children::One(_) => 1,
            Children::Two(_, _) => 2,
        }
    }

    /// The `i`-th child, or an out-of-bounds fault when `i` exceeds the
    /// node's declared arity.
    pub fn child(&self, i: usize) -> (r: Result<&SExpr, OptimizerError>)
        ensures
            match r {
                Ok(c) => i < self@.arity() && c@ == self@.child_at(i as int),
                Err(e) => i >= self@.arity() && e == OptimizerError::OutOfBounds,
            },
    {
        match &self.children {
            Children::Zero => Err(OptimizerError::OutOfBounds),
            Children::One(c) => {
                if i == 0 {
                    Ok(c)
                } else {
                    Err(OptimizerError::OutOfBounds)
                }
            }
            Children::Two(l, r) => {
                if i == 0 {
                    Ok(l)
                } else if i == 1 {
                    Ok(r)
                } else {
                    Err(OptimizerError::OutOfBounds)
                }
            }
        }
    }

    /// Whether this tree is a real plan: well-formed (each node has as
    /// many children as its operator kind declares) and free of pattern
    /// payloads. The optimizer accepts exactly such trees.
    pub fn is_real_plan(&self) -> (r: bool)
        ensures
            r == (self@.wf() && self@.no_patterns()),
        decreases self,
    {
        let is_pattern = match &self.plan {
            PlanNode::Pattern(_) => true,
            _ => false,
        };
        if is_pattern {
            return false;
        }
        let op = self.plan.rel_op();
        match (&self.children, op) {
            (Children::Zero, RelOp::Scan) => true,
            (Children::One(c), RelOp::Filter) => c.is_real_plan(),
            (Children::One(c), RelOp::EvalScalar) => c.is_real_plan(),
            (Children::Two(l, r), RelOp::Join) => l.is_real_plan() && r.is_real_plan(),
            _ => false,
        }
    }

    /// A structurally equal copy of this tree.
    pub fn duplicate(&self) -> (r: SExpr)
        ensures
            r@ == self@,
        decreases self,
    {
        let plan = self.plan.duplicate();
        match &self.children {
            Children::Zero => SExpr { plan, children: Children::Zero },
            Children::One(c) => {
                let child = c.duplicate();
                SExpr { plan, children: Children::One(Box::new(child)) }
            }
            Children::Two(l, r) => {
                let left = l.duplicate();
                let right = r.duplicate();
                SExpr { plan, children: Children::Two(Box::new(left), Box::new(right)) }
            }
        }
    }

    /// The recursive worker behind [`crate::matcher::matches`]: whether
    /// `candidate` structurally matches the pattern tree `self`.
    pub(crate) fn matches_rec(&self, candidate: &SExpr) -> (r: bool)
        ensures
            r == crate::matcher::spec_matches(self@, candidate@),
        decreases self,
    {
        let op = self.plan.rel_op();
        if op == RelOp::Pattern {
            return true;
        }
        if op != candidate.plan.rel_op() {
            return false;
        }
        match (&self.children, &candidate.children) {
            (Children::Zero, Children::Zero) => true,
            (Children::One(pc), Children::One(cc)) => pc.matches_rec(cc),
            (Children::Two(pl, pr), Children::Two(cl, cr)) => pl.matches_rec(cl)
                && pr.matches_rec(cr),
            _ => false,
        }
    }

    /// Whether two trees are structurally equal: equal payloads and equal
    /// corresponding children throughout.
    pub fn same_as(&self, other: &SExpr) -> (r: bool)
        ensures
            r == (self@ == other@),
        decreases self,
    {
        if !self.plan.same_as(&other.plan) {
            return false;
        }
        match (&self.children, &other.children) {
            (Children::Zero, Children::Zero) => true,
            (Children::One(a), Children::One(b)) => a.same_as(b),
            (Children::Two(a1, a2), Children::Two(b1, b2)) => a1.same_as(b1) && a2.same_as(b2),
            _ => false,
        }
    }
}

} // verus!
