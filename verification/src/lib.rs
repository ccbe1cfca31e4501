//! A rule-based rewriting engine for logical query plans, with the verified
//! pieces of the query system that surround it.
//!
//! A logical plan is an immutable expression tree ([`sexpr::SExpr`]) of
//! relational operators. Rewrite rules declare a pattern tree they match and
//! produce semantically equivalent replacement subtrees; the driver applies
//! the registered rules until the tree is stable or an iteration cap fires.
//! The matcher ([`matcher`]), the rule abstraction and the filter-elimination
//! exemplar ([`rule`]), the row semantics that rewrites must preserve
//! ([`semantics`]) and the driver ([`optimizer`]) make up the engine.
//!
//! Beside it stand the applied-state summary of a replicated log entry
//! ([`applied_state`]), the textual form of an UPDATE statement
//! ([`update_stmt`]), scalar-function building blocks ([`functions`]),
//! comparison kernels ([`comparisons`]) and the row builders of the share
//! interpreters ([`interpreters`]).

pub mod applied_state;
pub mod comparisons;
pub mod errors;
pub mod functions;
pub mod interpreters;
pub mod matcher;
pub mod optimizer;
pub mod plans;
pub mod rule;
pub mod semantics;
pub mod sexpr;
pub mod strings;
pub mod update_stmt;
