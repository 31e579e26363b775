//! Stop requests that do not wait for terminal cleanup.
//!
//! Identity and name variants commit to the bounded registry queue before waiting for the
//! registry's direct claim decision. `true` means this command claimed removal; `false` means the
//! target was absent or another stop path had already claimed it. Identity paths publish a request
//! event right before the commit; name paths leave it to the registry, which knows the identity.

use tokio::sync::{mpsc, oneshot};
use vstd::prelude::*;

use super::{CoreView, SupervisorCore};
use super::command_gate::refusal_error;
use crate::channel::{connected, oneshot_channel, reserved_from, QueueRefusal};
use crate::error::{RuntimeError, RuntimeErrorView};
use crate::events::{plain_event, Event, EventKind, EventView};
use crate::identity::TaskId;
use crate::registry::effects::reply_view;
use crate::registry::protocol::{RegistryCommand, RemoveReply};

verus! {

/// A command on its way into a reserved queue slot.
///
/// The events are published, in order, right before the command is sent through the slot.
#[verifier::reject_recursive_types(P)]
#[verifier::reject_recursive_types(S)]
#[verifier::reject_recursive_types(R)]
pub struct Committed<P, S, R> {
    /// Request events.
    pub events: Vec<Event>,
    /// Reserved slot.
    pub slot: P,
    /// Command to send.
    pub command: RegistryCommand<S>,
    /// Receiver of the registry's decision.
    pub reply: oneshot::Receiver<R>,
}

/// Contents of a list of events.
pub open spec fn event_views(events: Seq<Event>) -> Seq<EventView> {
    events.map_values(|event: Event| event@)
}

/// Request event of a removal by identity.
pub open spec fn remove_request(id: TaskId, reason: Option<Seq<char>>) -> EventView {
    EventView { id: Some(id), reason, ..plain_event(EventKind::TaskRemoveRequested) }
}

/// Characters of an optional constant text.
pub open spec fn str_view(text: Option<&'static str>) -> Option<Seq<char>> {
    match text {
        Some(text) => Some(text@),
        None => None,
    }
}

/// Prepares an identity removal for its reserved slot.
pub fn commit_remove<P, S>(slot: P, id: TaskId, reason: Option<&'static str>) -> (committed:
    Committed<P, S, RemoveReply>)
    ensures
        committed.slot == slot,
        event_views(committed.events@) == seq![remove_request(id, str_view(reason))],
        committed.command matches RegistryCommand::Remove { id: target, reply } && target == id
            && connected(reply, committed.reply),
{
    let (reply, reply_rx) = oneshot_channel();
    let event = Event::new(EventKind::TaskRemoveRequested).with_id(id);
    let event = match reason {
        Some(reason) => event.with_reason(reason),
        None => event,
    };
    let mut events: Vec<Event> = Vec::new();
    events.push(event);
    proof {
        assert(event_views(events@) =~= seq![remove_request(id, str_view(reason))]);
    }
    Committed { events, slot, command: RegistryCommand::Remove { id, reply }, reply: reply_rx }
}

/// Prepares a name removal for its reserved slot.
pub fn commit_remove_by_name<P, S>(slot: P, name: String) -> (committed: Committed<
    P,
    S,
    RemoveReply,
>)
    ensures
        committed.slot == slot,
        committed.events@.len() == 0,
        committed.command matches RegistryCommand::RemoveByName { name: target, reply } && target
            == name && connected(reply, committed.reply),
{
    let (reply, reply_rx) = oneshot_channel();
    Committed {
        events: Vec::new(),
        slot,
        command: RegistryCommand::RemoveByName { name, reply },
        reply: reply_rx,
    }
}

/// Reply to a stop request; a lost reply means that the registry is gone.
pub fn await_remove_reply(received: Option<RemoveReply>) -> (reply: RemoveReply)
    ensures
        reply_view(reply) == (match received {
            Some(reply) => reply_view(reply),
            None => Err(RuntimeErrorView::ShuttingDown),
        }),
{
    match received {
        Some(reply) => reply,
        None => Err(RuntimeError::ShuttingDown),
    }
}

/// Whether a removal by identity was enqueued with this result, after the queue answered.
pub open spec fn removal_after<P, S>(
    core: CoreView,
    slot: Result<P, QueueRefusal>,
    id: TaskId,
    reason: Option<&'static str>,
    enqueued: Result<Committed<P, S, RemoveReply>, RuntimeError>,
) -> bool {
    match slot {
        _ if core.shutting_down => enqueued matches Err(error) && error@
            == RuntimeErrorView::ShuttingDown,
        Err(refusal) => enqueued matches Err(error) && error@ == refusal_error(refusal),
        Ok(slot) => {
            &&& enqueued matches Ok(committed) && {
                &&& committed.slot == slot
                &&& event_views(committed.events@) == seq![
                    remove_request(id, str_view(reason)),
                ]
                &&& committed.command matches RegistryCommand::Remove { id: target, reply }
                    && target == id && connected(reply, committed.reply)
            }
        },
    }
}

/// Whether a removal by name was enqueued with this result, after the queue answered.
pub open spec fn named_removal_after<P, S>(
    core: CoreView,
    slot: Result<P, QueueRefusal>,
    name: String,
    enqueued: Result<Committed<P, S, RemoveReply>, RuntimeError>,
) -> bool {
    match slot {
        _ if core.shutting_down => enqueued matches Err(error) && error@
            == RuntimeErrorView::ShuttingDown,
        Err(refusal) => enqueued matches Err(error) && error@ == refusal_error(refusal),
        Ok(slot) => {
            &&& enqueued matches Ok(committed) && {
                &&& committed.slot == slot
                &&& committed.events@.len() == 0
                &&& committed.command matches RegistryCommand::RemoveByName {
                    name: target,
                    reply,
                } && target == name && connected(reply, committed.reply)
            }
        },
    }
}

impl SupervisorCore {
    /// Identity removal admitted immediately through the shutdown gate.
    ///
    /// Whether the queue has room is up to the queue;
    /// [`enqueue_remove_wait`](Self::enqueue_remove_wait) says what follows from its answer.
    pub fn enqueue_remove<'a, S>(
        &self,
        sender: &'a mpsc::Sender<RegistryCommand<S>>,
        id: TaskId,
        reason: Option<&'static str>,
    ) -> (enqueued: Result<
        Committed<mpsc::Permit<'a, RegistryCommand<S>>, S, RemoveReply>,
        RuntimeError,
    >)
        ensures
            self@.shutting_down ==> (enqueued matches Err(error) && error@
                == RuntimeErrorView::ShuttingDown),
            !self@.shutting_down ==> exists|slot| #[trigger]
                reserved_from(sender, slot) && removal_after(self@, slot, id, reason, enqueued),
    {
        match self.try_reserve_command_admission(sender) {
            Err(error) => Err(error),
            Ok(slot) => Ok(commit_remove(slot, id, reason)),
        }
    }

    /// Identity removal once the queue has answered a request for a slot.
    ///
    /// Admission that closed in the meantime wins over a granted slot.
    pub fn enqueue_remove_wait<P, S>(
        &self,
        slot: Result<P, QueueRefusal>,
        id: TaskId,
        reason: Option<&'static str>,
    ) -> (enqueued: Result<Committed<P, S, RemoveReply>, RuntimeError>)
        ensures
            removal_after(self@, slot, id, reason, enqueued),
    {
        match self.pass_gate(slot) {
            Err(error) => Err(error),
            Ok(slot) => Ok(commit_remove(slot, id, reason)),
        }
    }

    /// Name removal admitted immediately through the shutdown gate.
    pub fn enqueue_remove_by_name<'a, S>(
        &self,
        sender: &'a mpsc::Sender<RegistryCommand<S>>,
        name: String,
    ) -> (enqueued: Result<
        Committed<mpsc::Permit<'a, RegistryCommand<S>>, S, RemoveReply>,
        RuntimeError,
    >)
        ensures
            self@.shutting_down ==> (enqueued matches Err(error) && error@
                == RuntimeErrorView::ShuttingDown),
            !self@.shutting_down ==> exists|slot| #[trigger]
                reserved_from(sender, slot) && named_removal_after(self@, slot, name, enqueued),
    {
        match self.try_reserve_command_admission(sender) {
            Err(error) => Err(error),
            Ok(slot) => Ok(commit_remove_by_name(slot, name)),
        }
    }

    /// Name removal once the queue has answered a request for a slot.
    pub fn enqueue_remove_by_name_wait<P, S>(
        &self,
        slot: Result<P, QueueRefusal>,
        name: String,
    ) -> (enqueued: Result<Committed<P, S, RemoveReply>, RuntimeError>)
        ensures
            named_removal_after(self@, slot, name, enqueued),
    {
        match self.pass_gate(slot) {
            Err(error) => Err(error),
            Ok(slot) => Ok(commit_remove_by_name(slot, name)),
        }
    }
}

} // verus!
