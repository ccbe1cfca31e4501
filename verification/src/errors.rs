//! Faults of the rewriting engine.
//!
//! These are internal engine faults, not user-facing query errors: each one
//! means a registration or driver bug, and optimization of the affected
//! subtree is aborted rather than guessed at. Arity violations have no
//! variant here: tree construction rejects them by precondition, so they
//! are never observed after construction.

use vstd::prelude::*;

verus! {

/// The error taxonomy of the rewriting engine.
#[derive(Clone, Copy, PartialEq, Eq, Structural, Debug)]
pub enum OptimizerError {
    /// A child index exceeded the node's declared arity.
    OutOfBounds,
    /// A rule was invoked on a payload it cannot interpret.
    DowncastMismatch,
    /// The bound on substitutions per optimization call was exceeded.
    IterationCapExceeded,
}

} // verus!
