//! Keeps management commands from committing after shutdown closes admission.
//!
//! Every mutating management path uses this gate for its last shutdown check. Shutdown closes
//! admission and then asks the registry for an ordering fence. Commands already committed are
//! ahead of that fence. A queue reservation by itself is not a commit.

use tokio::sync::mpsc;
use vstd::prelude::*;

use super::shutdown::result_view;
use super::{CoreView, SupervisorCore};
use crate::channel::{mpsc_try_reserve, reserved_from, QueueRefusal};
use crate::error::{RuntimeError, RuntimeErrorView};
use crate::registry::protocol::RegistryCommand;

verus! {

/// Error of a fail-fast command that got no queue slot.
pub open spec fn refusal_error(refusal: QueueRefusal) -> RuntimeErrorView {
    match refusal {
        QueueRefusal::Full => RuntimeErrorView::CommandQueueFull,
        QueueRefusal::Closed => RuntimeErrorView::ShuttingDown,
    }
}

/// Error of a fail-fast command that got no queue slot.
pub fn queue_refused(refusal: QueueRefusal) -> (error: RuntimeError)
    ensures
        error@ == refusal_error(refusal),
{
    match refusal {
        QueueRefusal::Full => RuntimeError::CommandQueueFull,
        QueueRefusal::Closed => RuntimeError::ShuttingDown,
    }
}

/// Whether a slot may commit: closed admission wins over it, then the queue's own answer counts.
pub open spec fn gated<P>(
    core: CoreView,
    slot: Result<P, QueueRefusal>,
    passed: Result<P, RuntimeError>,
) -> bool {
    match slot {
        _ if core.shutting_down => passed matches Err(error) && error@
            == RuntimeErrorView::ShuttingDown,
        Ok(slot) => passed == Ok::<P, RuntimeError>(slot),
        Err(refusal) => passed matches Err(error) && error@ == refusal_error(refusal),
    }
}

impl SupervisorCore {
    /// Closes command admission.
    pub fn mark_shutting_down(&mut self)
        requires
            old(self)@.valid(),
        ensures
            final(self)@ == (CoreView { shutting_down: true, ..old(self)@ }),
            final(self)@.valid(),
            old(self)@.only_forward(final(self)@),
    {
        self.shutting_down = true;
    }

    /// Final shutdown check of a command: passes unless admission is closed.
    pub fn command_admission(&self) -> (open: bool)
        ensures
            open == !self@.shutting_down,
    {
        !self.shutting_down
    }

    /// First shutdown check of a command that is going to wait for queue capacity.
    pub fn check_open(&self) -> (checked: Result<(), RuntimeError>)
        ensures
            result_view(checked) == (if self@.shutting_down {
                Err::<(), _>(RuntimeErrorView::ShuttingDown)
            } else {
                Ok(())
            }),
    {
        if self.shutting_down {
            Err(RuntimeError::ShuttingDown)
        } else {
            Ok(())
        }
    }

    /// Takes a slot to its commit, unless admission closed or the queue refused.
    ///
    /// A slot that may not commit is given back.
    pub fn pass_gate<P>(&self, slot: Result<P, QueueRefusal>) -> (passed: Result<P, RuntimeError>)
        ensures
            gated(self@, slot, passed),
    {
        if self.is_shutting_down() {
            return Err(RuntimeError::ShuttingDown);
        }
        match slot {
            Err(refusal) => Err(queue_refused(refusal)),
            Ok(slot) => {
                if self.command_admission() {
                    Ok(slot)
                } else {
                    Err(RuntimeError::ShuttingDown)
                }
            },
        }
    }

    /// Acquires immediate queue capacity and passes the final shutdown gate.
    ///
    /// Whether the queue has room is up to the queue; [`pass_gate`](Self::pass_gate) says what
    /// follows.
    pub fn try_reserve_command_admission<'a, S>(
        &self,
        sender: &'a mpsc::Sender<RegistryCommand<S>>,
    ) -> (passed: Result<mpsc::Permit<'a, RegistryCommand<S>>, RuntimeError>)
        ensures
            self@.shutting_down ==> (passed matches Err(error) && error@
                == RuntimeErrorView::ShuttingDown),
            !self@.shutting_down ==> exists|slot| #[trigger]
                reserved_from(sender, slot) && gated(self@, slot, passed),
    {
        if self.is_shutting_down() {
            return Err(RuntimeError::ShuttingDown);
        }
        let slot = mpsc_try_reserve(sender);
        proof {
            assert(reserved_from(sender, slot));
        }
        self.pass_gate(slot)
    }
}

/// Result of a registry fence.
///
/// The fence fails when the listener no longer takes control messages or never acknowledges.
pub fn fence_result(sent: bool, acknowledged: bool) -> (fenced: Result<(), RuntimeError>)
    ensures
        result_view(fenced) == (if sent && acknowledged {
            Ok::<(), RuntimeErrorView>(())
        } else {
            Err(RuntimeErrorView::ShuttingDown)
        }),
{
    if sent && acknowledged {
        Ok(())
    } else {
        Err(RuntimeError::ShuttingDown)
    }
}

} // verus!
