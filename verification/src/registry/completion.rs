//! Two-phase completion of one registry removal.
//!
//! ```text
//! registered ───────────► removing ──────────────────────────► membership and reporting ──► logical
//! force-aborted actor ──► physical exit and terminal match ──► physical
//! ```
//!
//! Logical completion means membership was removed and terminal reporting was attempted.
//! Physical completion means the actor has exited and force-abort tracking has ended.
//! A latch does not request cancellation.

use tokio::sync::oneshot;
use vstd::prelude::*;

use crate::outcome::TaskOutcome;

verus! {

/// Sender that resolves a watched task with its final outcome.
pub type OutcomeTx<S> = oneshot::Sender<TaskOutcome<S>>;

/// Names the logical and physical latch pair of one removal.
///
/// Copies observe the same pair.
#[derive(Clone, Copy, Debug, PartialEq, Eq, Structural)]
pub struct RemovalCompletion {
    /// Number of the latch pair.
    pub latch: u64,
}

impl RemovalCompletion {
    /// Latch pair behind a number that no other pair uses.
    pub fn new(latch: u64) -> (completion: RemovalCompletion)
        ensures
            completion.latch == latch,
    {
        RemovalCompletion { latch }
    }

    /// Whether both values observe the same physical-release latch.
    pub fn shares_physical_latch(&self, other: &RemovalCompletion) -> (shared: bool)
        ensures
            shared == (*self == *other),
    {
        self.latch == other.latch
    }
}

} // verus!
