//! Cleanup capacity, reserved before the runtime accepts a user-owned task.
//!
//! A reservation is attached to the task specification and follows the task through registry
//! membership, actor execution, physical reaping, and final destruction. Waiting admission
//! observes shutdown. Static batches use one immediate atomic reservation for the full batch.

use std::time::Duration;
use vstd::prelude::*;
use vstd::string::*;

use super::{CoreView, SupervisorCore};
use crate::deferred_drop::{DropAdmissionError, DropBundle, OWNERSHIP_RESOURCE};
use crate::error::{RuntimeError, RuntimeErrorView};
use crate::events::{failure_event, Event};
use crate::registry::protocol::OwnedTask;
use crate::tasks::TaskSpec;

verus! {

/// Runtime error of refused cleanup capacity.
pub open spec fn admission_error(error: DropAdmissionError) -> RuntimeErrorView {
    match error {
        DropAdmissionError::Start { source } => RuntimeErrorView::ThreadStartFailed {
            component: "destructor_isolation"@,
            source,
        },
        DropAdmissionError::Capacity { limit } => RuntimeErrorView::ResourceLimitReached {
            resource: OWNERSHIP_RESOURCE@,
            limit,
        },
    }
}

/// Preserves cleanup admission failure details in the runtime error model.
pub fn ownership_admission_error(error: DropAdmissionError) -> (mapped: RuntimeError)
    ensures
        mapped@ == admission_error(error),
{
    match error {
        DropAdmissionError::Start { source } => RuntimeError::ThreadStartFailed {
            component: "destructor_isolation",
            source,
        },
        DropAdmissionError::Capacity { limit } => RuntimeError::ResourceLimitReached {
            resource: OWNERSHIP_RESOURCE,
            limit,
        },
    }
}

impl CoreView {
    /// With that many more slots of the ownership budget in use.
    pub open spec fn charged_by(self, count: nat) -> CoreView {
        CoreView { ownership: self.ownership.charged_by(count), ..self }
    }

    /// Refusal of an exhausted ownership budget.
    pub open spec fn capacity_error(self) -> DropAdmissionError {
        DropAdmissionError::Capacity { limit: self.ownership.ceiling() }
    }
}

impl SupervisorCore {
    /// Charges a complete batch, or nothing.
    ///
    /// `workers` is the result of starting the destructor workers, which the first charge needs.
    pub fn try_reserve_ownership_many(
        &mut self,
        count: usize,
        workers: Result<(), std::io::Error>,
    ) -> (reserved: Result<(), DropAdmissionError>)
        requires
            old(self)@.valid(),
        ensures
            final(self)@.valid(),
            old(self)@.only_forward(final(self)@),
            match workers {
                Err(source) => {
                    &&& reserved == Err::<(), _>(DropAdmissionError::Start { source })
                    &&& final(self)@ == old(self)@
                },
                Ok(()) => if old(self)@.ownership.admits(count as nat) {
                    &&& reserved is Ok
                    &&& final(self)@ == old(self)@.charged_by(count as nat)
                } else {
                    &&& reserved == Err::<(), _>(old(self)@.capacity_error())
                    &&& final(self)@ == old(self)@
                },
            },
    {
        match workers {
            Err(source) => Err(DropAdmissionError::Start { source }),
            Ok(()) => self.drop_domain.try_reserve_many(count),
        }
    }

    /// Ends the charge of one destroyed user value.
    pub fn release_ownership(&mut self, poisoned: bool)
        requires
            old(self)@.valid(),
            old(self)@.ownership.charged > 0,
        ensures
            final(self)@.valid(),
            old(self)@.only_forward(final(self)@),
            final(self)@ == (CoreView {
                ownership: old(self)@.ownership.released(poisoned),
                ..old(self)@
            }),
    {
        self.drop_domain.release(poisoned);
    }
}

/// Chooses the next step of a wait for cleanup capacity.
///
/// Shutdown wins over a closed queue, a closed queue over a granted slot, and a granted slot over
/// the deadline. Nothing is returned while the wait goes on. `expired` is the bound of a bounded
/// wait, once it is over.
pub fn wait_for_ownership<R>(
    shutdown_started: bool,
    queue_closed: bool,
    reservation: Option<Result<R, DropAdmissionError>>,
    expired: Option<Duration>,
) -> (turn: Option<Result<R, RuntimeError>>)
    ensures
        if shutdown_started || queue_closed {
            turn matches Some(Err(error)) && error@ == RuntimeErrorView::ShuttingDown
        } else {
            match reservation {
                Some(Ok(slot)) => turn == Some(Ok::<R, RuntimeError>(slot)),
                Some(Err(refused)) => turn matches Some(Err(error)) && error@ == admission_error(
                    refused,
                ),
                None => match expired {
                    Some(timeout) => turn matches Some(Err(error)) && error@ == (
                    RuntimeErrorView::OwnershipAdmissionTimeout { timeout }),
                    None => turn is None,
                },
            }
        },
{
    if shutdown_started {
        return Some(Err(RuntimeError::ShuttingDown));
    }
    if queue_closed {
        return Some(Err(RuntimeError::ShuttingDown));
    }
    match reservation {
        Some(Ok(slot)) => Some(Ok(slot)),
        Some(Err(refused)) => Some(Err(ownership_admission_error(refused))),
        None => match expired {
            Some(timeout) => Some(Err(RuntimeError::OwnershipAdmissionTimeout { timeout })),
            None => None,
        },
    }
}

/// Attaches cleanup ownership to a task specification.
pub fn own_task<S>(spec: TaskSpec, ticket: u64) -> (owned: OwnedTask<S>)
    ensures
        owned.spec == spec,
        owned.cleanup.is_fresh(ticket),
{
    OwnedTask { spec, cleanup: DropBundle::new(ticket) }
}

/// Diagnostic for a panic of a task's destructor.
pub fn destructor_panic(message: &str) -> (event: Event)
    ensures
        event@ == failure_event("task_destructor"@, "task_drop_panicked: "@ + message@),
{
    let mut reason = "task_drop_panicked: ".to_owned();
    reason.append(message);
    Event::runtime_failure("task_destructor", reason.as_str())
}

} // verus!
