//! Cancellation that waits for shared registry cleanup.
//!
//! A command resolves an identity or name and claims removal at one registry ordering point. The
//! caller then waits for the registry's shared completion. The result records whether this call
//! made the stop claim. A bounded wait starts after the registry decision; its timeout ends only
//! that caller's wait while removal continues.

use std::time::Duration;
use tokio::sync::mpsc;
use vstd::prelude::*;

use super::{CoreView, SupervisorCore};
use super::command_gate::refusal_error;
use super::remove::Committed;
use crate::channel::{connected, oneshot_channel, reserved_from, QueueRefusal};
use crate::error::{RuntimeError, RuntimeErrorView};
use crate::identity::TaskId;
use crate::registry::effects::reply_view;
use crate::registry::protocol::{CancelDecision, CancelReply, RegistryCommand};

verus! {

/// Prepares an identity cancellation for its reserved slot.
pub fn commit_cancel<P, S>(slot: P, id: TaskId) -> (committed: Committed<P, S, CancelReply>)
    ensures
        committed.slot == slot,
        committed.events@.len() == 0,
        committed.command matches RegistryCommand::Cancel { id: target, reply } && target == id
            && connected(reply, committed.reply),
{
    let (reply, reply_rx) = oneshot_channel();
    Committed {
        events: Vec::new(),
        slot,
        command: RegistryCommand::Cancel { id, reply },
        reply: reply_rx,
    }
}

/// Prepares a name cancellation for its reserved slot.
pub fn commit_cancel_by_name<P, S>(slot: P, name: String) -> (committed: Committed<
    P,
    S,
    CancelReply,
>)
    ensures
        committed.slot == slot,
        committed.events@.len() == 0,
        committed.command matches RegistryCommand::CancelByName { name: target, reply } && target
            == name && connected(reply, committed.reply),
{
    let (reply, reply_rx) = oneshot_channel();
    Committed {
        events: Vec::new(),
        slot,
        command: RegistryCommand::CancelByName { name, reply },
        reply: reply_rx,
    }
}

/// Reply to a cancellation; a lost reply means that the registry is gone.
pub fn await_cancel_reply(received: Option<CancelReply>) -> (reply: CancelReply)
    ensures
        reply_view(reply) == (match received {
            Some(reply) => reply_view(reply),
            None => Err(RuntimeErrorView::ShuttingDown),
        }),
{
    match received {
        Some(reply) => reply,
        None => Err(RuntimeError::ShuttingDown),
    }
}

/// How a wait for logical completion ended.
#[derive(Clone, Copy, Debug)]
pub enum CancelWait {
    /// The removal was committed.
    Completed,
    /// The caller's bound expired.
    Expired {
        /// Bound of the wait.
        timeout: Duration,
        /// Whether the removal was committed by the time the expiry was noticed.
        complete: bool,
    },
}

/// Result of a cancellation for its caller.
///
/// A missing task is `false` without any wait. A completion that comes together with the deadline
/// wins. Otherwise the result is whether this call made the claim.
pub fn wait_cancel_decision(decision: Option<CancelDecision>, wait: CancelWait) -> (result: Result<
    bool,
    RuntimeError,
>)
    ensures
        match (decision, wait) {
            (None, _) => result == Ok::<bool, RuntimeError>(false),
            (Some(decision), CancelWait::Expired { timeout, complete: false }) => result matches Err(
                error,
            ) && error@ == (RuntimeErrorView::TaskTerminationTimeout { id: decision.id, timeout }),
            (Some(decision), _) => result == Ok::<bool, RuntimeError>(decision.claimed),
        },
{
    match decision {
        None => Ok(false),
        Some(decision) => {
            if let CancelWait::Expired { timeout, complete } = wait {
                if !complete {
                    return Err(
                        RuntimeError::TaskTerminationTimeout { id: decision.id, timeout },
                    );
                }
            }
            Ok(decision.claimed)
        },
    }
}

/// Whether a cancellation by identity was enqueued with this result, after the queue answered.
pub open spec fn cancellation_after<P, S>(
    core: CoreView,
    slot: Result<P, QueueRefusal>,
    id: TaskId,
    enqueued: Result<Committed<P, S, CancelReply>, RuntimeError>,
) -> bool {
    match slot {
        _ if core.shutting_down => enqueued matches Err(error) && error@
            == RuntimeErrorView::ShuttingDown,
        Err(refusal) => enqueued matches Err(error) && error@ == refusal_error(refusal),
        Ok(slot) => {
            &&& enqueued matches Ok(committed) && {
                &&& committed.slot == slot
                &&& committed.events@.len() == 0
                &&& committed.command matches RegistryCommand::Cancel { id: target, reply }
                    && target == id && connected(reply, committed.reply)
            }
        },
    }
}

/// Whether a cancellation by name was enqueued with this result, after the queue answered.
pub open spec fn named_cancellation_after<P, S>(
    core: CoreView,
    slot: Result<P, QueueRefusal>,
    name: String,
    enqueued: Result<Committed<P, S, CancelReply>, RuntimeError>,
) -> bool {
    match slot {
        _ if core.shutting_down => enqueued matches Err(error) && error@
            == RuntimeErrorView::ShuttingDown,
        Err(refusal) => enqueued matches Err(error) && error@ == refusal_error(refusal),
        Ok(slot) => {
            &&& enqueued matches Ok(committed) && {
                &&& committed.slot == slot
                &&& committed.events@.len() == 0
                &&& committed.command matches RegistryCommand::CancelByName {
                    name: target,
                    reply,
                } && target == name && connected(reply, committed.reply)
            }
        },
    }
}

impl SupervisorCore {
    /// Identity cancellation admitted immediately through the shutdown gate.
    pub fn enqueue_cancel<'a, S>(
        &self,
        sender: &'a mpsc::Sender<RegistryCommand<S>>,
        id: TaskId,
    ) -> (enqueued: Result<
        Committed<mpsc::Permit<'a, RegistryCommand<S>>, S, CancelReply>,
        RuntimeError,
    >)
        ensures
            self@.shutting_down ==> (enqueued matches Err(error) && error@
                == RuntimeErrorView::ShuttingDown),
            !self@.shutting_down ==> exists|slot| #[trigger]
                reserved_from(sender, slot) && cancellation_after(self@, slot, id, enqueued),
    {
        match self.try_reserve_command_admission(sender) {
            Err(error) => Err(error),
            Ok(slot) => Ok(commit_cancel(slot, id)),
        }
    }

    /// Identity cancellation once the queue has answered a request for a slot.
    pub fn enqueue_cancel_wait<P, S>(&self, slot: Result<P, QueueRefusal>, id: TaskId) -> (enqueued:
        Result<Committed<P, S, CancelReply>, RuntimeError>)
        ensures
            cancellation_after(self@, slot, id, enqueued),
    {
        match self.pass_gate(slot) {
            Err(error) => Err(error),
            Ok(slot) => Ok(commit_cancel(slot, id)),
        }
    }

    /// Name cancellation admitted immediately through the shutdown gate.
    pub fn enqueue_cancel_by_name<'a, S>(
        &self,
        sender: &'a mpsc::Sender<RegistryCommand<S>>,
        name: String,
    ) -> (enqueued: Result<
        Committed<mpsc::Permit<'a, RegistryCommand<S>>, S, CancelReply>,
        RuntimeError,
    >)
        ensures
            self@.shutting_down ==> (enqueued matches Err(error) && error@
                == RuntimeErrorView::ShuttingDown),
            !self@.shutting_down ==> exists|slot| #[trigger]
                reserved_from(sender, slot) && named_cancellation_after(
                    self@,
                    slot,
                    name,
                    enqueued,
                ),
    {
        match self.try_reserve_command_admission(sender) {
            Err(error) => Err(error),
            Ok(slot) => Ok(commit_cancel_by_name(slot, name)),
        }
    }

    /// Name cancellation once the queue has answered a request for a slot.
    pub fn enqueue_cancel_by_name_wait<P, S>(
        &self,
        slot: Result<P, QueueRefusal>,
        name: String,
    ) -> (enqueued: Result<Committed<P, S, CancelReply>, RuntimeError>)
        ensures
            named_cancellation_after(self@, slot, name, enqueued),
    {
        match self.pass_gate(slot) {
            Err(error) => Err(error),
            Ok(slot) => Ok(commit_cancel_by_name(slot, name)),
        }
    }
}

} // verus!
