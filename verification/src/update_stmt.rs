//! The textual form of an UPDATE statement.
//!
//! The statement references its table, assignment list and optional WHERE
//! condition by their already-rendered texts; this module states and builds
//! the full statement text.

use vstd::prelude::*;
use vstd::string::StringExecFns;

use crate::strings::joined_with;

verus! {

/// One assignment of an UPDATE statement: a column name and the rendered
/// expression assigned to it.
pub struct UpdateExpr {
    pub name: String,
    pub expr: String,
}

/// An UPDATE statement: the rendered table reference, the assignment list,
/// and the optional rendered WHERE condition.
pub struct UpdateStmt {
    pub table: String,
    pub update_list: Vec<UpdateExpr>,
    pub selection: Option<String>,
}

/// The text of one assignment: `name = expr`.
pub open spec fn update_expr_text(e: UpdateExpr) -> Seq<char> {
    e.name@ + " = "@ + e.expr@
}

/// The texts of a sequence of assignments.
pub open spec fn update_expr_texts(es: Seq<UpdateExpr>) -> Seq<Seq<char>> {
    es.map_values(|e: UpdateExpr| update_expr_text(e))
}

/// The text of a whole statement: `UPDATE table SET a = x, b = y` with
/// ` WHERE cond` appended when a condition is present.
pub open spec fn update_stmt_text(s: UpdateStmt) -> Seq<char> {
    let head = "UPDATE "@ + s.table@ + " SET "@ + joined_with(
        update_expr_texts(s.update_list@),
        ", "@,
    );
    match s.selection {
        Some(cond) => head + " WHERE "@ + cond@,
        None => head,
    }
}

impl UpdateExpr {
    /// Render this assignment as `name = expr`.
    pub fn display_string(&self) -> (r: String)
        ensures
            r@ == update_expr_text(*self),
    {
        let mut out = String::new();
        out.append(self.name.as_str());
        out.append(" = ");
        out.append(self.expr.as_str());
        out
    }
}

impl UpdateStmt {
    /// Render this statement as `UPDATE table SET assignments` with the
    /// WHERE clause appended when a condition is present.
    pub fn display_string(&self) -> (r: String)
        ensures
            r@ == update_stmt_text(*self),
    {
        let ghost texts = update_expr_texts(self.update_list@);
        let mut parts: Vec<String> = Vec::new();
        let mut i: usize = 0;
        while i < self.update_list.len()
            invariant
                i <= self.update_list.len(),
                texts == update_expr_texts(self.update_list@),
                crate::strings::string_views(parts@) == texts.take(i as int),
            decreases self.update_list.len() - i,
        {
            let ghost parts_before = parts@;
            let rendered = self.update_list[i].display_string();
            parts.push(rendered);
            proof {
                assert(crate::strings::string_views(parts_before).len() == parts_before.len());
                assert(parts_before.len() == i as int);
                assert forall|j: int| 0 <= j < parts@.len() implies crate::strings::string_views(
                    parts@,
                )[j] == texts.take(i as int + 1)[j] by {
                    assert(crate::strings::string_views(parts@)[j] == parts@[j]@);
                    if j < i as int {
                        assert(parts@[j] == parts_before[j]);
                        assert(crate::strings::string_views(parts_before)[j] == parts_before[j]@);
                        assert(crate::strings::string_views(parts_before)[j] == texts.take(
                            i as int,
                        )[j]);
                    } else {
                        assert(parts@[j]@ == update_expr_text(self.update_list@[i as int]));
                        assert(texts[i as int] == update_expr_text(self.update_list@[i as int]));
                    }
                }
                assert(crate::strings::string_views(parts@) =~= texts.take(i as int + 1));
            }
            i = i + 1;
        }
        proof {
            assert(texts.take(texts.len() as int) =~= texts);
        }
        let joined = crate::strings::join_strings(&parts, ", ");
        let mut out = String::new();
        out.append("UPDATE ");
        out.append(self.table.as_str());
        out.append(" SET ");
        out.append(joined.as_str());
        match &self.selection {
            Some(cond) => {
                out.append(" WHERE ");
                out.append(cond.as_str());
            }
            None => {}
        }
        out
    }
}

} // verus!
