//! How an actor ends, and what that means to whoever watches the task.
//!
//! `S` is the type of the shared source error that a failure may carry.

use vstd::prelude::*;

use crate::events::RejectionKind;

verus! {

/// Terminal category of a task.
#[derive(Clone, Copy, Debug, PartialEq, Eq, Structural)]
pub enum TaskOutcomeKind {
    Completed,
    Canceled,
    Failed,
    Fatal,
    Panicked,
    ForceAborted,
    Rejected,
}

/// Final result of a watched task.
#[derive(Clone, Debug)]
pub enum TaskOutcome<S> {
    /// The task ended without error.
    Completed,
    /// The task observed cancellation and stopped.
    Canceled,
    /// Retries are exhausted or not allowed.
    Failed {
        /// Human-readable diagnostic reason.
        reason: String,
        /// Process-style exit code, when available.
        exit_code: Option<i32>,
        /// Source of the last failure.
        source: Option<S>,
    },
    /// The task failed permanently.
    Fatal {
        /// Human-readable diagnostic reason.
        reason: String,
        /// Process-style exit code, when available.
        exit_code: Option<i32>,
        /// Source of the failure.
        source: Option<S>,
    },
    /// The task runner panicked.
    Panicked,
    /// The actor did not stop within its grace period.
    ForceAborted,
    /// The registry refused the task.
    Rejected {
        /// Category of the refusal.
        kind: RejectionKind,
        /// Human-readable diagnostic reason.
        reason: String,
    },
}

/// Contents of a [`TaskOutcome`], with its texts as character sequences.
pub enum TaskOutcomeView<S> {
    Completed,
    Canceled,
    Failed { reason: Seq<char>, exit_code: Option<i32>, source: Option<S> },
    Fatal { reason: Seq<char>, exit_code: Option<i32>, source: Option<S> },
    Panicked,
    ForceAborted,
    Rejected { kind: RejectionKind, reason: Seq<char> },
}

impl<S> View for TaskOutcome<S> {
    type V = TaskOutcomeView<S>;

    open spec fn view(&self) -> TaskOutcomeView<S> {
        match *self {
            TaskOutcome::Completed => TaskOutcomeView::Completed,
            TaskOutcome::Canceled => TaskOutcomeView::Canceled,
            TaskOutcome::Failed { reason, exit_code, source } => TaskOutcomeView::Failed {
                reason: reason@,
                exit_code,
                source,
            },
            TaskOutcome::Fatal { reason, exit_code, source } => TaskOutcomeView::Fatal {
                reason: reason@,
                exit_code,
                source,
            },
            TaskOutcome::Panicked => TaskOutcomeView::Panicked,
            TaskOutcome::ForceAborted => TaskOutcomeView::ForceAborted,
            TaskOutcome::Rejected { kind, reason } => TaskOutcomeView::Rejected {
                kind,
                reason: reason@,
            },
        }
    }
}

impl<S> TaskOutcomeView<S> {
    /// Category of the outcome.
    pub open spec fn kind(self) -> TaskOutcomeKind {
        match self {
            TaskOutcomeView::Completed => TaskOutcomeKind::Completed,
            TaskOutcomeView::Canceled => TaskOutcomeKind::Canceled,
            TaskOutcomeView::Failed { .. } => TaskOutcomeKind::Failed,
            TaskOutcomeView::Fatal { .. } => TaskOutcomeKind::Fatal,
            TaskOutcomeView::Panicked => TaskOutcomeKind::Panicked,
            TaskOutcomeView::ForceAborted => TaskOutcomeKind::ForceAborted,
            TaskOutcomeView::Rejected { .. } => TaskOutcomeKind::Rejected,
        }
    }
}

impl<S> TaskOutcome<S> {
    /// Category of the outcome.
    pub fn kind(&self) -> (kind: TaskOutcomeKind)
        ensures
            kind == self@.kind(),
    {
        match self {
            TaskOutcome::Completed => TaskOutcomeKind::Completed,
            TaskOutcome::Canceled => TaskOutcomeKind::Canceled,
            TaskOutcome::Failed { .. } => TaskOutcomeKind::Failed,
            TaskOutcome::Fatal { .. } => TaskOutcomeKind::Fatal,
            TaskOutcome::Panicked => TaskOutcomeKind::Panicked,
            TaskOutcome::ForceAborted => TaskOutcomeKind::ForceAborted,
            TaskOutcome::Rejected { .. } => TaskOutcomeKind::Rejected,
        }
    }
}

/// Why an actor returned.
#[derive(Debug)]
pub enum ActorExitReason<S> {
    /// The restart policy is satisfied.
    Completed,
    /// Cancellation was observed.
    Canceled,
    /// User code panicked and the panic could not be contained in the attempt.
    Panicked {
        /// Whether destroying a user value also panicked.
        cleanup_poisoned: bool,
    },
    /// Retries are exhausted or not allowed.
    Exhausted {
        /// Human-readable diagnostic reason.
        reason: String,
        /// Process-style exit code, when available.
        exit_code: Option<i32>,
        /// Source of the last failure.
        source: Option<S>,
    },
    /// The task failed permanently.
    Fatal {
        /// Human-readable diagnostic reason.
        reason: String,
        /// Process-style exit code, when available.
        exit_code: Option<i32>,
        /// Source of the failure.
        source: Option<S>,
    },
}

/// Failure reported by an actor wrapper.
#[derive(Clone, Copy, Debug, PartialEq, Eq, Structural)]
pub enum ActorJoinError {
    /// The actor panicked while it was polled.
    Panicked {
        /// Whether panic payload cleanup also failed.
        cleanup_poisoned: bool,
    },
    /// Logical join result after a force-abort transfer.
    Aborted,
}

impl ActorJoinError {
    /// Whether the actor panicked.
    pub fn is_panic(self) -> (panicked: bool)
        ensures
            panicked == (self is Panicked),
    {
        matches!(self, ActorJoinError::Panicked { .. })
    }

    /// Whether panic payload cleanup also failed.
    pub fn cleanup_poisoned(self) -> (poisoned: bool)
        ensures
            poisoned == (self == ActorJoinError::Panicked { cleanup_poisoned: true }),
    {
        matches!(self, ActorJoinError::Panicked { cleanup_poisoned: true })
    }

    /// Whether the actor was force-aborted.
    pub fn is_cancelled(self) -> (aborted: bool)
        ensures
            aborted == (self == ActorJoinError::Aborted),
    {
        matches!(self, ActorJoinError::Aborted)
    }
}

/// Result produced by a physical actor wrapper.
pub type ActorResult<S> = Result<ActorExitReason<S>, ActorJoinError>;

} // verus!
