//! Relational operator payloads of a logical plan tree.
//!
//! A plan node carries one variant per concrete operator, plus the special
//! `Pattern` payload used only inside rule pattern trees. The operator kind
//! ([`RelOp`]) of a node determines how many children the node must have.

use vstd::prelude::*;

verus! {

/// The kind of relational operator a plan node represents.
///
/// `Pattern` is the wildcard kind: it appears only inside rule patterns,
/// never inside a real plan.
#[derive(Clone, Copy, PartialEq, Eq, Structural, Debug, Hash)]
pub enum RelOp {
    Scan,
    Join,
    EvalScalar,
    Filter,
    Pattern,
}

/// An opaque scalar expression (a literal, column reference or function
/// call), produced by the scalar-expression subsystem and identified here by
/// an interned handle. The rewriting engine only ever compares scalars for
/// equality; it never looks inside them.
#[derive(Clone, Copy, PartialEq, Eq, Structural, Debug, Hash)]
pub struct Scalar {
    pub id: u64,
}

/// The payload of a `Filter` node: a conjunction of predicates over the rows
/// of its single child.
#[derive(Debug)]
pub struct Filter {
    pub predicates: Vec<Scalar>,
    pub is_having: bool,
}

/// The payload of a `Scan` node: a leaf reading the rows of one table.
#[derive(Debug)]
pub struct Scan {
    pub table: u64,
}

/// The payload of a `Join` node over two children.
#[derive(Debug)]
pub struct Join {
    pub join_expr: Option<Scalar>,
}

/// The payload of an `EvalScalar` node: scalar items evaluated over each row
/// of its single child.
#[derive(Debug)]
pub struct EvalScalar {
    pub items: Vec<Scalar>,
}

/// The payload of a pattern node inside a rule's pattern tree. Its
/// `plan_type` is the operator kind the node matches; `RelOp::Pattern` there
/// matches any node.
#[derive(Debug)]
pub struct PatternPlan {
    pub plan_type: RelOp,
}

/// The payload carried by one node of a plan tree: one variant per concrete
/// operator, plus `Pattern` for rule templates.
#[derive(Debug)]
pub enum PlanNode {
    Scan(Scan),
    Join(Join),
    EvalScalar(EvalScalar),
    Filter(Filter),
    Pattern(PatternPlan),
}

/// The mathematical value of a [`PlanNode`]: the same variants with
/// sequences in place of vectors.
#[verifier::ext_equal]
pub enum PlanNodeView {
    Scan { table: u64 },
    Join { join_expr: Option<Scalar> },
    EvalScalar { items: Seq<Scalar> },
    Filter { predicates: Seq<Scalar>, is_having: bool },
    Pattern { plan_type: RelOp },
}

impl View for PlanNode {
    type V = PlanNodeView;

    open spec fn view(&self) -> PlanNodeView {
        match self {
            PlanNode::Scan(s) => PlanNodeView::Scan { table: s.table },
            PlanNode::Join(j) => PlanNodeView::Join { join_expr: j.join_expr },
            PlanNode::EvalScalar(e) => PlanNodeView::EvalScalar { items: e.items@ },
            PlanNode::Filter(f) => PlanNodeView::Filter {
                predicates: f.predicates@,
                is_having: f.is_having,
            },
            PlanNode::Pattern(p) => PlanNodeView::Pattern { plan_type: p.plan_type },
        }
    }
}

impl PlanNodeView {
    /// The operator kind of a node payload. A pattern payload reports the
    /// kind it stands for, which may itself be the wildcard `Pattern`.
    pub open spec fn rel_op(self) -> RelOp {
        match self {
            PlanNodeView::Scan { .. } => RelOp::Scan,
            PlanNodeView::Join { .. } => RelOp::Join,
            PlanNodeView::EvalScalar { .. } => RelOp::EvalScalar,
            PlanNodeView::Filter { .. } => RelOp::Filter,
            PlanNodeView::Pattern { plan_type } => plan_type,
        }
    }
}

/// How many children a node of the given operator kind has: filters and
/// scalar evaluations are unary, joins binary, scans and wildcard pattern
/// leaves nullary.
pub open spec fn rel_op_arity(op: RelOp) -> nat {
    match op {
        RelOp::Scan => 0,
        RelOp::Join => 2,
        RelOp::EvalScalar => 1,
        RelOp::Filter => 1,
        RelOp::Pattern => 0,
    }
}

impl PlanNode {
    /// The operator kind of this payload.
    pub fn rel_op(&self) -> (r: RelOp)
        ensures
            r == self@.rel_op(),
    {
        match self {
            PlanNode::Scan(_) => RelOp::Scan,
            PlanNode::Join(_) => RelOp::Join,
            PlanNode::EvalScalar(_) => RelOp::EvalScalar,
            PlanNode::Filter(_) => RelOp::Filter,
            PlanNode::Pattern(p) => p.plan_type,
        }
    }

    /// A structurally equal copy of this payload.
    pub fn duplicate(&self) -> (r: PlanNode)
        ensures
            r@ == self@,
    {
        match self {
            PlanNode::Scan(s) => PlanNode::Scan(Scan { table: s.table }),
            PlanNode::Join(j) => PlanNode::Join(Join { join_expr: j.join_expr }),
            PlanNode::EvalScalar(e) => {
                let items = duplicate_scalars(&e.items);
                proof {
                    assert(PlanNode::EvalScalar(EvalScalar { items })@ =~= self@);
                }
                PlanNode::EvalScalar(EvalScalar { items })
            }
            PlanNode::Filter(f) => {
                let predicates = duplicate_scalars(&f.predicates);
                proof {
                    assert(PlanNode::Filter(
                        Filter { predicates, is_having: f.is_having },
                    )@ =~= self@);
                }
                PlanNode::Filter(Filter { predicates, is_having: f.is_having })
            }
            PlanNode::Pattern(p) => PlanNode::Pattern(PatternPlan { plan_type: p.plan_type }),
        }
    }

    /// Whether two payloads are structurally equal.
    pub fn same_as(&self, other: &PlanNode) -> (r: bool)
        ensures
            r == (self@ == other@),
    {
        match (self, other) {
            (PlanNode::Scan(a), PlanNode::Scan(b)) => a.table == b.table,
            (PlanNode::Join(a), PlanNode::Join(b)) => match (a.join_expr, b.join_expr) {
                (Some(x), Some(y)) => x == y,
                (None, None) => true,
                _ => false,
            },
            (PlanNode::EvalScalar(a), PlanNode::EvalScalar(b)) => {
                let r = scalars_equal(&a.items, &b.items);
                proof {
                    if a.items@ =~= b.items@ {
                        assert(self@ =~= other@);
                    }
                }
                r
            }
            (PlanNode::Filter(a), PlanNode::Filter(b)) => {
                let r = scalars_equal(&a.predicates, &b.predicates) && a.is_having
                    == b.is_having;
                proof {
                    if a.predicates@ =~= b.predicates@ && a.is_having == b.is_having {
                        assert(self@ =~= other@);
                    }
                }
                r
            }
            (PlanNode::Pattern(a), PlanNode::Pattern(b)) => a.plan_type == b.plan_type,
            _ => false,
        }
    }
}

/// A copy of a scalar vector with the same contents.
pub fn duplicate_scalars(v: &Vec<Scalar>) -> (r: Vec<Scalar>)
    ensures
        r@ == v@,
{
    let mut out: Vec<Scalar> = Vec::new();
    let mut i: usize = 0;
    while i < v.len()
        invariant
            i <= v.len(),
            out@ == v@.take(i as int),
        decreases v.len() - i,
    {
        out.push(v[i]);
        proof {
            assert(out@ =~= v@.take(i as int + 1));
        }
        i = i + 1;
    }
    proof {
        assert(v@.take(v@.len() as int) =~= v@);
    }
    out
}

/// Whether two scalar vectors hold the same scalars in the same order.
pub fn scalars_equal(a: &Vec<Scalar>, b: &Vec<Scalar>) -> (r: bool)
    ensures
        r == (a@ == b@),
{
    if a.len() != b.len() {
        proof {
            assert(a@.len() != b@.len());
        }
        return false;
    }
    let mut i: usize = 0;
    while i < a.len()
        invariant
            i <= a.len(),
            a@.len() == b@.len(),
            forall|j: int| 0 <= j < i ==> a@[j] == b@[j],
        decreases a.len() - i,
    {
        if a[i].id != b[i].id {
            return false;
        }
        i = i + 1;
    }
    proof {
        assert(a@ =~= b@);
    }
    true
}

} // verus!
