//! Greater-than comparison kernels over column values.
//!
//! Boolean columns compare with `true > false`, so `l > r` is `l && !r`;
//! byte strings compare lexicographically.

use vstd::prelude::*;

verus! {

/// A column of boolean values.
pub struct BooleanColumn {
    pub values: Vec<bool>,
}

/// Whether `a` is lexicographically greater than `b`: at the first
/// position where they differ the greater byte wins, and a proper prefix
/// is smaller than the longer string.
pub open spec fn lex_gt(a: Seq<u8>, b: Seq<u8>) -> bool
    decreases a.len(),
{
    if b.len() == 0 {
        a.len() > 0
    } else if a.len() == 0 {
        false
    } else if a[0] != b[0] {
        a[0] > b[0]
    } else {
        lex_gt(a.drop_first(), b.drop_first())
    }
}

/// The greater-than comparison over boolean operands.
pub struct BooleanSimdGt;

impl BooleanSimdGt {
    /// Compare two boolean columns of equal length pointwise.
    pub fn vector_vector(lhs: &BooleanColumn, rhs: &BooleanColumn) -> (r: BooleanColumn)
        requires
            lhs.values@.len() == rhs.values@.len(),
        ensures
            r.values@.len() == lhs.values@.len(),
            forall|i: int|
                0 <= i < r.values@.len() ==> r.values@[i] == (lhs.values@[i] && !rhs.values@[i]),
    {
        let mut out: Vec<bool> = Vec::new();
        let mut i: usize = 0;
        while i < lhs.values.len()
            invariant
                i <= lhs.values.len(),
                lhs.values@.len() == rhs.values@.len(),
                out@.len() == i,
                forall|j: int| 0 <= j < i ==> out@[j] == (lhs.values@[j] && !rhs.values@[j]),
            decreases lhs.values.len() - i,
        {
            out.push(lhs.values[i] && !rhs.values[i]);
            i = i + 1;
        }
        BooleanColumn { values: out }
    }

    /// Compare each element of a boolean column with a constant on the
    /// right.
    pub fn vector_const(lhs: &BooleanColumn, rhs: bool) -> (r: BooleanColumn)
        ensures
            r.values@.len() == lhs.values@.len(),
            forall|i: int| 0 <= i < r.values@.len() ==> r.values@[i] == (lhs.values@[i] && !rhs),
    {
        let mut out: Vec<bool> = Vec::new();
        let mut i: usize = 0;
        while i < lhs.values.len()
            invariant
                i <= lhs.values.len(),
                out@.len() == i,
                forall|j: int| 0 <= j < i ==> out@[j] == (lhs.values@[j] && !rhs),
            decreases lhs.values.len() - i,
        {
            out.push(lhs.values[i] && !rhs);
            i = i + 1;
        }
        BooleanColumn { values: out }
    }

    /// Compare a constant on the left with each element of a boolean
    /// column.
    pub fn const_vector(lhs: bool, rhs: &BooleanColumn) -> (r: BooleanColumn)
        ensures
            r.values@.len() == rhs.values@.len(),
            forall|i: int| 0 <= i < r.values@.len() ==> r.values@[i] == (lhs && !rhs.values@[i]),
    {
        let mut out: Vec<bool> = Vec::new();
        let mut i: usize = 0;
        while i < rhs.values.len()
            invariant
                i <= rhs.values.len(),
                out@.len() == i,
                forall|j: int| 0 <= j < i ==> out@[j] == (lhs && !rhs.values@[j]),
            decreases rhs.values.len() - i,
        {
            out.push(lhs && !rhs.values[i]);
            i = i + 1;
        }
        BooleanColumn { values: out }
    }
}

/// The greater-than comparison over row values.
pub struct ComparisonGtImpl;

impl ComparisonGtImpl {
    /// Whether the byte string `l` is lexicographically greater than `r`.
    pub fn eval_binary(l: &Vec<u8>, r: &Vec<u8>) -> (res: bool)
        ensures
            res == lex_gt(l@, r@),
    {
        let mut i: usize = 0;
        proof {
            assert(l@.skip(0) =~= l@);
            assert(r@.skip(0) =~= r@);
        }
        loop
            invariant
                i <= l@.len(),
                i <= r@.len(),
                forall|j: int| 0 <= j < i ==> l@[j] == r@[j],
                lex_gt(l@, r@) == lex_gt(l@.skip(i as int), r@.skip(i as int)),
            decreases l@.len() - i,
        {
            if i >= r.len() {
                proof {
                    assert(r@.skip(i as int).len() == 0);
                }
                return i < l.len();
            }
            if i >= l.len() {
                proof {
                    assert(l@.skip(i as int).len() == 0);
                    assert(r@.skip(i as int).len() > 0);
                }
                return false;
            }
            let lb = l[i];
            let rb = r[i];
            proof {
                assert(l@.skip(i as int)[0] == l@[i as int]);
                assert(r@.skip(i as int)[0] == r@[i as int]);
            }
            if lb != rb {
                return lb > rb;
            }
            proof {
                assert(l@.skip(i as int).drop_first() =~= l@.skip(i as int + 1));
                assert(r@.skip(i as int).drop_first() =~= r@.skip(i as int + 1));
            }
            i = i + 1;
        }
    }
}

} // verus!
