//! Messages between runtime management and the registry.
//!
//! Management commits ordered commands to a bounded queue. The registry answers each command
//! through its one-shot sender. These direct replies are the source of truth for add, remove, and
//! cancel calls. Lifecycle events are not part of the reply path.

use tokio::sync::oneshot;
use vstd::prelude::*;

use super::completion::{OutcomeTx, RemovalCompletion};
use crate::deferred_drop::DropBundle;
use crate::error::RuntimeError;
use crate::identity::TaskId;
use crate::tasks::TaskSpec;

verus! {

/// Result of one single-task or batch add command.
pub type AddReply = Result<(), RuntimeError>;

/// Result of one remove command.
///
/// `Ok(true)` means the command claimed the task and sent cancellation.
/// The actor may still be running and membership remains until terminal cleanup.
pub type RemoveReply = Result<bool, RuntimeError>;

/// Result of one cancel command.
///
/// `Ok(None)` means no entry exists at this command's ordering point.
pub type CancelReply = Result<Option<CancelDecision>, RuntimeError>;

/// Registry decision returned to one cancellation caller.
///
/// `claimed` is true only when this command changed the entry from registered to removing.
/// Later commands for that entry receive the same logical completion latch.
#[derive(Clone, Copy, Debug, PartialEq, Eq, Structural)]
pub struct CancelDecision {
    /// Identity resolved at the command ordering point.
    pub id: TaskId,
    /// Whether this command started the single join owner.
    pub claimed: bool,
    /// Logical removal latch shared by all cancellation callers.
    pub completion: RemovalCompletion,
}

/// Task specification with the cleanup capacity charged for it.
#[derive(Debug)]
pub struct OwnedTask<S> {
    /// Name and settings.
    pub spec: TaskSpec,
    /// User values and their reserved capacity.
    pub cleanup: DropBundle<S>,
}

/// One task of an atomic batch.
#[derive(Debug)]
pub struct AddBatchItem<S> {
    /// Assigned identity.
    pub id: TaskId,
    /// Unique name.
    pub name: String,
    /// Specification and charged user values.
    pub owned: OwnedTask<S>,
    /// Latch pair for its removal.
    pub completion: RemovalCompletion,
}

/// Command sent to the registry over the management channel.
#[derive(Debug)]
#[verifier::reject_recursive_types(S)]
pub enum RegistryCommand<S> {
    /// Register one task under an assigned runtime identity.
    Add {
        id: TaskId,
        name: String,
        owned: OwnedTask<S>,
        /// Direct path for a watched terminal or rejected outcome.
        outcome: Option<OutcomeTx<S>>,
        /// Latch pair of a caller that tracks physical release.
        completion: Option<RemovalCompletion>,
        /// Latch pair used when the caller brings none.
        fresh: RemovalCompletion,
        /// Returns the decision before the actor start gate opens.
        reply: oneshot::Sender<AddReply>,
    },
    /// Validate and register every static-run task as one operation.
    AddBatch {
        items: Vec<AddBatchItem<S>>,
        /// Returns the decision before the shared start gate opens.
        reply: oneshot::Sender<AddReply>,
    },
    /// Remove a task by runtime identity.
    Remove {
        id: TaskId,
        /// Reports the claim without waiting for terminal cleanup.
        reply: oneshot::Sender<RemoveReply>,
    },
    /// Resolve a name and claim its current owner in one registry operation.
    RemoveByName {
        name: String,
        /// Reports the claim without waiting for terminal cleanup.
        reply: oneshot::Sender<RemoveReply>,
    },
    /// Start cancellation or join an existing removal by runtime identity.
    Cancel {
        id: TaskId,
        /// Returns the resolved identity, claim result, and logical latch.
        reply: oneshot::Sender<CancelReply>,
    },
    /// Resolve a name and start or join its cancellation atomically.
    CancelByName {
        name: String,
        /// Returns the resolved identity, claim result, and logical latch.
        reply: oneshot::Sender<CancelReply>,
    },
}

} // verus!
