//! The applied-state summary of a replicated log entry.
//!
//! Applying one log entry to the metadata state machine yields, depending
//! on the operation, a sequence number, a node change, a key-value change
//! or a transaction reply. Each variant reports whether the application
//! changed anything and whether a state existed before and after.

use vstd::prelude::*;

verus! {

/// A cluster node, identified here by the plain values this logic reads:
/// its identity and its endpoint handle.
#[derive(Clone, Copy, PartialEq, Eq, Structural, Debug)]
pub struct Node {
    pub id: u64,
    pub endpoint: u64,
}

/// A state transition of one record: the value before applying the log
/// entry and the value after.
#[derive(Clone, PartialEq, Eq, Debug)]
pub struct Change<T> {
    pub prev: Option<T>,
    pub result: Option<T>,
}

/// The reply to a transactional operation.
#[derive(Clone, PartialEq, Eq, Debug)]
pub struct TxnReply {
    pub success: bool,
    pub error: String,
}

/// Whether two optional byte strings hold the same bytes.
pub open spec fn option_bytes_eq(a: Option<Seq<u8>>, b: Option<Seq<u8>>) -> bool {
    match (a, b) {
        (Option::None, Option::None) => true,
        (Option::Some(x), Option::Some(y)) => x == y,
        _ => false,
    }
}

/// The view of an optional byte vector.
pub open spec fn option_bytes_view(a: Option<Vec<u8>>) -> Option<Seq<u8>> {
    match a {
        Option::None => Option::None,
        Option::Some(v) => Option::Some(v@),
    }
}

/// Whether two byte vectors hold the same bytes.
fn bytes_eq(a: &Vec<u8>, b: &Vec<u8>) -> (r: bool)
    ensures
        r == (a@ == b@),
{
    if a.len() != b.len() {
        proof {
            assert(a@.len() != b@.len());
        }
        return false;
    }
    let mut i: usize = 0;
    while i < a.len()
        invariant
            i <= a.len(),
            a@.len() == b@.len(),
            forall|j: int| 0 <= j < i ==> a@[j] == b@[j],
        decreases a.len() - i,
    {
        if a[i] != b[i] {
            return false;
        }
        i = i + 1;
    }
    proof {
        assert(a@ =~= b@);
    }
    true
}

impl Change<Vec<u8>> {
    /// Whether the value of the record differs before and after.
    pub fn changed(&self) -> (r: bool)
        ensures
            r == !option_bytes_eq(option_bytes_view(self.prev), option_bytes_view(self.result)),
    {
        match (&self.prev, &self.result) {
            (Option::None, Option::None) => false,
            (Option::Some(a), Option::Some(b)) => !bytes_eq(a, b),
            _ => true,
        }
    }
}

/// The state of an applied log entry: normally the state before applying
/// and the state after.
#[derive(Clone, PartialEq, Eq, Debug)]
pub enum AppliedState {
    SeqNum { seq: u64 },
    Node { prev: Option<Node>, result: Option<Node> },
    KV(Change<Vec<u8>>),
    TxnReply(TxnReply),
    Empty,
}

impl AppliedState {
    /// Whether applying the entry changed anything.
    pub open spec fn spec_changed(self) -> bool {
        match self {
            AppliedState::SeqNum { .. } => true,
            AppliedState::Node { prev, result } => prev != result,
            AppliedState::KV(ch) => !option_bytes_eq(
                option_bytes_view(ch.prev),
                option_bytes_view(ch.result),
            ),
            AppliedState::TxnReply(txn) => txn.success,
            AppliedState::Empty => false,
        }
    }

    /// Whether no state existed before applying the entry.
    pub open spec fn spec_prev_is_none(self) -> bool {
        match self {
            AppliedState::SeqNum { .. } => false,
            AppliedState::Node { prev, .. } => prev is None,
            AppliedState::KV(ch) => ch.prev is None,
            AppliedState::TxnReply(_) => true,
            AppliedState::Empty => true,
        }
    }

    /// Whether no state exists after applying the entry.
    pub open spec fn spec_result_is_none(self) -> bool {
        match self {
            AppliedState::SeqNum { .. } => false,
            AppliedState::Node { result, .. } => result is None,
            AppliedState::KV(ch) => ch.result is None,
            AppliedState::TxnReply(txn) => !txn.success,
            AppliedState::Empty => true,
        }
    }

    /// Whether the state changed.
    pub fn changed(&self) -> (r: bool)
        ensures
            r == self.spec_changed(),
    {
        match self {
            AppliedState::SeqNum { .. } => true,
            AppliedState::Node { prev, result } => {
                match (prev, result) {
                    (Option::None, Option::None) => false,
                    (Option::Some(a), Option::Some(b)) => !(a.id == b.id && a.endpoint
                        == b.endpoint),
                    _ => true,
                }
            }
            AppliedState::KV(ch) => ch.changed(),
            AppliedState::TxnReply(txn) => txn.success,
            AppliedState::Empty => false,
        }
    }

    pub fn prev_is_some(&self) -> (r: bool)
        ensures
            r == !self.spec_prev_is_none(),
    {
        !self.prev_is_none()
    }

    pub fn result_is_some(&self) -> (r: bool)
        ensures
            r == !self.spec_result_is_none(),
    {
        !self.result_is_none()
    }

    /// Whether a state existed before and whether one exists after.
    pub fn is_some(&self) -> (r: (bool, bool))
        ensures
            r.0 == !self.spec_prev_is_none(),
            r.1 == !self.spec_result_is_none(),
    {
        (self.prev_is_some(), self.result_is_some())
    }

    /// Whether no state existed before and whether none exists after.
    pub fn is_none(&self) -> (r: (bool, bool))
        ensures
            r.0 == self.spec_prev_is_none(),
            r.1 == self.spec_result_is_none(),
    {
        (self.prev_is_none(), self.result_is_none())
    }

    pub fn prev_is_none(&self) -> (r: bool)
        ensures
            r == self.spec_prev_is_none(),
    {
        match self {
            AppliedState::SeqNum { .. } => false,
            AppliedState::Node { prev, .. } => prev.is_none(),
            AppliedState::KV(ch) => ch.prev.is_none(),
            AppliedState::TxnReply(_) => true,
            AppliedState::Empty => true,
        }
    }

    pub fn result_is_none(&self) -> (r: bool)
        ensures
            r == self.spec_result_is_none(),
    {
        match self {
            AppliedState::SeqNum { .. } => false,
            AppliedState::Node { result, .. } => result.is_none(),
            AppliedState::KV(ch) => ch.result.is_none(),
            AppliedState::TxnReply(txn) => !txn.success,
            AppliedState::Empty => true,
        }
    }
}

} // verus!
