//! Direct tasks, controller handoffs, and static batches on their way into registry admission.
//!
//! An add reserves cleanup ownership and bounded queue capacity before it transfers a task. The
//! request event comes immediately before the command is sent; failures before that point stay
//! silent and give every value back. The registry's reply, not an event, confirms admission.

use tokio::sync::{mpsc, oneshot};
use vstd::prelude::*;

use super::{CoreView, SupervisorCore};
use super::command_gate::{queue_refused, refusal_error};
use super::ownership::{admission_error, own_task, ownership_admission_error};
use super::remove::{event_views, Committed};
use super::shutdown::result_view;
use crate::channel::{
    connected, mpsc_try_reserve, oneshot_channel, reserved_from, QueueRefusal,
};
use crate::deferred_drop::{DropAdmissionError, DropBundle};
use crate::error::{RuntimeError, RuntimeErrorView};
use crate::events::{task_event, Event, EventKind, EventView};
use crate::identity::TaskId;
use crate::registry::admission::task_event_of;
use crate::registry::completion::{OutcomeTx, RemovalCompletion};
use crate::registry::protocol::{AddBatchItem, AddReply, OwnedTask, RegistryCommand};
use crate::tasks::TaskSpec;

verus! {

/// An add that did not reach the registry queue, with everything that is still the caller's.
#[verifier::reject_recursive_types(S)]
pub struct UncommittedAdd<S> {
    /// Why the add did not commit.
    pub error: RuntimeError,
    /// The caller's outcome sender.
    pub done: Option<OutcomeTx<S>>,
    /// User values that were charged already: they go to deferred destruction.
    pub cleanup: Option<DropBundle<S>>,
}

/// A controller task that did not reach the registry queue, with everything it consists of.
#[verifier::reject_recursive_types(S)]
pub struct UncommittedWatchedAdd<S> {
    /// Why the add did not commit.
    pub error: RuntimeError,
    /// Task name.
    pub name: String,
    /// Specification and charged user values.
    pub owned: OwnedTask<S>,
    /// The caller's outcome sender.
    pub done: Option<OutcomeTx<S>>,
}

/// A batch that did not reach the registry queue, with every item of it.
#[verifier::reject_recursive_types(S)]
pub struct UncommittedBatch<S> {
    /// Why the batch did not commit.
    pub error: RuntimeError,
    /// The items: their user values go to deferred destruction.
    pub items: Vec<AddBatchItem<S>>,
}

/// Whether a command adds exactly the given task and is answered to the given receiver.
pub open spec fn adds<S>(
    command: RegistryCommand<S>,
    answer: oneshot::Receiver<AddReply>,
    id: TaskId,
    name: String,
    owned: OwnedTask<S>,
    done: Option<OutcomeTx<S>>,
    completion: Option<RemovalCompletion>,
    fresh: RemovalCompletion,
) -> bool {
    command matches RegistryCommand::Add {
        id: added,
        name: added_name,
        owned: added_owned,
        outcome,
        completion: latch,
        fresh: spare,
        reply,
    } && added == id && added_name == name && added_owned == owned && outcome == done && latch
        == completion && spare == fresh && connected(reply, answer)
}

/// Prepares an add for its reserved slot, with its request event.
pub fn commit_add<P, S>(
    slot: P,
    id: TaskId,
    name: String,
    owned: OwnedTask<S>,
    done: Option<OutcomeTx<S>>,
    completion: Option<RemovalCompletion>,
    fresh: RemovalCompletion,
) -> (committed: Committed<P, S, AddReply>)
    ensures
        committed.slot == slot,
        event_views(committed.events@) == seq![
            task_event(EventKind::TaskAddRequested, id, name@),
        ],
        adds(committed.command, committed.reply, id, name, owned, done, completion, fresh),
{
    let (reply, reply_rx) = oneshot_channel();
    let mut events: Vec<Event> = Vec::new();
    events.push(task_event_of(EventKind::TaskAddRequested, id, &name));
    proof {
        assert(event_views(events@) =~= seq![task_event(EventKind::TaskAddRequested, id, name@)]);
    }
    Committed {
        events,
        slot,
        command: RegistryCommand::Add { id, name, owned, outcome: done, completion, fresh, reply },
        reply: reply_rx,
    }
}

/// Request events of a batch, in item order.
pub open spec fn batch_requests<S>(items: Seq<AddBatchItem<S>>) -> Seq<EventView> {
    Seq::new(
        items.len(),
        |i: int| task_event(EventKind::TaskAddRequested, items[i].id, items[i].name@),
    )
}

/// Maps one registry add reply into the assigned identity or admission error.
///
/// A lost reply means that the registry is gone.
pub fn await_add_reply(id: TaskId, received: Option<AddReply>) -> (added: Result<
    TaskId,
    RuntimeError,
>)
    ensures
        match received {
            Some(Ok(())) => added == Ok::<TaskId, RuntimeError>(id),
            Some(Err(error)) => added == Err::<TaskId, RuntimeError>(error),
            None => added matches Err(error) && error@ == RuntimeErrorView::ShuttingDown,
        },
{
    match received {
        Some(Ok(())) => Ok(id),
        Some(Err(error)) => Err(error),
        None => Err(RuntimeError::ShuttingDown),
    }
}

/// The registry's all-or-none decision for a static batch.
pub fn await_add_batch_reply(received: Option<AddReply>) -> (added: Result<(), RuntimeError>)
    ensures
        result_view(added) == (match received {
            Some(reply) => result_view(reply),
            None => Err(RuntimeErrorView::ShuttingDown),
        }),
{
    match received {
        Some(reply) => reply,
        None => Err(RuntimeError::ShuttingDown),
    }
}

/// Chooses the next step of a wait for a queue slot: shutdown wins over a granted slot.
///
/// Nothing is returned while the wait goes on.
pub fn slot_wait<P>(shutdown_started: bool, slot: Option<Result<P, QueueRefusal>>) -> (turn: Option<
    Result<P, QueueRefusal>,
>)
    ensures
        turn == (if shutdown_started {
            Some(Err::<P, _>(QueueRefusal::Closed))
        } else {
            slot
        }),
{
    if shutdown_started {
        Some(Err(QueueRefusal::Closed))
    } else {
        slot
    }
}

impl SupervisorCore {
    /// First step of a fail-fast add: is admission open, and has the queue room right now?
    ///
    /// Whether it has room is up to the queue. The slot is not kept.
    pub fn probe_add<S>(&self, sender: &mpsc::Sender<RegistryCommand<S>>) -> (probed: Result<
        (),
        RuntimeError,
    >)
        ensures
            self@.shutting_down ==> (probed matches Err(error) && error@
                == RuntimeErrorView::ShuttingDown),
            !self@.shutting_down ==> exists|slot| #[trigger]
                reserved_from(sender, slot) && match slot {
                    Ok(_) => probed is Ok,
                    Err(refusal) => probed matches Err(error) && error@ == refusal_error(refusal),
                },
    {
        if self.is_shutting_down() {
            return Err(RuntimeError::ShuttingDown);
        }
        let slot = mpsc_try_reserve(sender);
        proof {
            assert(reserved_from(sender, slot));
        }
        match slot {
            Ok(_) => Ok(()),
            Err(refusal) => Err(queue_refused(refusal)),
        }
    }

    /// Second step of a fail-fast add: charges cleanup ownership for the task.
    ///
    /// `workers` is the result of starting the destructor workers. A refused task gives everything
    /// back.
    pub fn charge_add<S>(
        &mut self,
        spec: TaskSpec,
        ticket: u64,
        done: Option<OutcomeTx<S>>,
        workers: Result<(), std::io::Error>,
    ) -> (charged: Result<(OwnedTask<S>, Option<OutcomeTx<S>>), UncommittedAdd<S>>)
        requires
            old(self)@.valid(),
        ensures
            final(self)@.valid(),
            old(self)@.only_forward(final(self)@),
            match workers {
                Err(source) => {
                    &&& final(self)@ == old(self)@
                    &&& refused(
                        charged,
                        admission_error(DropAdmissionError::Start { source }),
                        done,
                    )
                },
                Ok(()) => if !old(self)@.ownership.admits(1) {
                    &&& final(self)@ == old(self)@
                    &&& refused(charged, admission_error(old(self)@.capacity_error()), done)
                } else {
                    &&& final(self)@ == old(self)@.charged_by(1)
                    &&& charged matches Ok((owned, kept)) && {
                        &&& owned.spec == spec
                        &&& owned.cleanup.is_fresh(ticket)
                        &&& kept == done
                    }
                },
            },
    {
        match self.try_reserve_ownership_many(1, workers) {
            Err(refused) => Err(
                UncommittedAdd { error: ownership_admission_error(refused), done, cleanup: None },
            ),
            Ok(()) => Ok((own_task::<S>(spec, ticket), done)),
        }
    }

    /// Last step of a fail-fast add: the task is charged, and the queue has answered.
    ///
    /// A task that cannot commit keeps its charge until its values are destroyed.
    pub fn add_with_slot<P, S>(
        &self,
        id: TaskId,
        owned: OwnedTask<S>,
        done: Option<OutcomeTx<S>>,
        fresh: RemovalCompletion,
        slot: Result<P, QueueRefusal>,
    ) -> (enqueued: Result<Committed<P, S, AddReply>, UncommittedAdd<S>>)
        ensures
            match slot {
                Ok(slot) if !self@.shutting_down => enqueued matches Ok(committed) && {
                    &&& committed.slot == slot
                    &&& event_views(committed.events@) == seq![
                        task_event(EventKind::TaskAddRequested, id, owned.spec.name@),
                    ]
                    &&& adds(
                        committed.command,
                        committed.reply,
                        id,
                        owned.spec.name,
                        owned,
                        done,
                        None,
                        fresh,
                    )
                },
                _ => enqueued matches Err(uncommitted) && {
                    &&& uncommitted.error@ == (match slot {
                        Err(refusal) if !self@.shutting_down => refusal_error(refusal),
                        _ => RuntimeErrorView::ShuttingDown,
                    })
                    &&& uncommitted.done == done
                    &&& uncommitted.cleanup == Some(owned.cleanup)
                },
            },
    {
        match self.pass_gate(slot) {
            Err(error) => Err(UncommittedAdd { error, done, cleanup: Some(owned.cleanup) }),
            Ok(slot) => {
                let name = owned.spec.name.clone();
                Ok(commit_add(slot, id, name, owned, done, None, fresh))
            },
        }
    }

    /// Fail-fast add: probes the queue before it charges cleanup ownership, and reserves a slot
    /// again under the final shutdown gate before it commits.
    ///
    /// `start` starts the destructor workers. It is called only where the queue has room.
    pub fn enqueue_add_task<'a, S, F: FnOnce() -> Result<(), std::io::Error>>(
        &mut self,
        sender: &'a mpsc::Sender<RegistryCommand<S>>,
        id: TaskId,
        spec: TaskSpec,
        ticket: u64,
        done: Option<OutcomeTx<S>>,
        fresh: RemovalCompletion,
        start: F,
    ) -> (enqueued: Result<
        Committed<mpsc::Permit<'a, RegistryCommand<S>>, S, AddReply>,
        UncommittedAdd<S>,
    >)
        requires
            old(self)@.valid(),
            start.requires(()),
        ensures
            final(self)@.valid(),
            old(self)@.only_forward(final(self)@),
            old(self)@.shutting_down ==> {
                &&& final(self)@ == old(self)@
                &&& refused(enqueued, RuntimeErrorView::ShuttingDown, done)
            },
            !old(self)@.shutting_down ==> exists|probe| #[trigger]
                reserved_from(sender, probe) && match probe {
                    Err(refusal) => {
                        &&& final(self)@ == old(self)@
                        &&& refused(enqueued, refusal_error(refusal), done)
                    },
                    Ok(_) => exists|workers: Result<(), std::io::Error>| #[trigger]
                        start.ensures((), workers) && add_after_start(
                            old(self)@,
                            sender,
                            id,
                            spec,
                            ticket,
                            done,
                            fresh,
                            workers,
                            final(self)@,
                            enqueued,
                        ),
                },
    {
        match self.probe_add(sender) {
            Err(error) => Err(UncommittedAdd { error, done, cleanup: None }),
            Ok(()) => {
                let workers = start();
                match self.charge_add(spec, ticket, done, workers) {
                    Err(uncommitted) => Err(uncommitted),
                    Ok((owned, done)) => {
                        let slot = mpsc_try_reserve(sender);
                        proof {
                            assert(reserved_from(sender, slot));
                        }
                        self.add_with_slot(id, owned, done, fresh, slot)
                    },
                }
            },
        }
    }

    /// Last step of a waiting add: cleanup ownership is there, and the queue has answered.
    pub fn finish_add_wait<P, S>(
        &self,
        id: TaskId,
        owned: OwnedTask<S>,
        done: Option<OutcomeTx<S>>,
        fresh: RemovalCompletion,
        slot: Result<P, QueueRefusal>,
    ) -> (enqueued: Result<Committed<P, S, AddReply>, UncommittedAdd<S>>)
        ensures
            match slot {
                Ok(slot) if !self@.shutting_down => enqueued matches Ok(committed) && {
                    &&& committed.slot == slot
                    &&& event_views(committed.events@) == seq![
                        task_event(EventKind::TaskAddRequested, id, owned.spec.name@),
                    ]
                    &&& adds(
                        committed.command,
                        committed.reply,
                        id,
                        owned.spec.name,
                        owned,
                        done,
                        None,
                        fresh,
                    )
                },
                _ => enqueued matches Err(uncommitted) && {
                    &&& uncommitted.error@ == RuntimeErrorView::ShuttingDown
                    &&& uncommitted.done == done
                    &&& uncommitted.cleanup == Some(owned.cleanup)
                },
            },
    {
        match slot {
            Err(_) => Err(
                UncommittedAdd {
                    error: RuntimeError::ShuttingDown,
                    done,
                    cleanup: Some(owned.cleanup),
                },
            ),
            Ok(slot) => {
                if self.command_admission() {
                    let name = owned.spec.name.clone();
                    Ok(commit_add(slot, id, name, owned, done, None, fresh))
                } else {
                    Err(
                        UncommittedAdd {
                            error: RuntimeError::ShuttingDown,
                            done,
                            cleanup: Some(owned.cleanup),
                        },
                    )
                }
            },
        }
    }

    /// Commits an already-owned controller task, or gives every value back.
    ///
    /// `completion` tracks registry cleanup and full physical release for the controller.
    pub fn add_task_with_id_watched<P, S>(
        &self,
        slot: Result<P, QueueRefusal>,
        id: TaskId,
        name: String,
        owned: OwnedTask<S>,
        done: Option<OutcomeTx<S>>,
        completion: RemovalCompletion,
    ) -> (enqueued: Result<Committed<P, S, AddReply>, UncommittedWatchedAdd<S>>)
        ensures
            match slot {
                Ok(slot) if !self@.shutting_down => enqueued matches Ok(committed) && {
                    &&& committed.slot == slot
                    &&& event_views(committed.events@) == seq![
                        task_event(EventKind::TaskAddRequested, id, name@),
                    ]
                    &&& adds(
                        committed.command,
                        committed.reply,
                        id,
                        name,
                        owned,
                        done,
                        Some(completion),
                        completion,
                    )
                },
                _ => enqueued matches Err(uncommitted) && {
                    &&& uncommitted.error@ == (match slot {
                        Err(refusal) if !self@.shutting_down => refusal_error(refusal),
                        _ => RuntimeErrorView::ShuttingDown,
                    })
                    &&& uncommitted.name == name
                    &&& uncommitted.owned == owned
                    &&& uncommitted.done == done
                },
            },
    {
        match self.pass_gate(slot) {
            Err(error) => Err(UncommittedWatchedAdd { error, name, owned, done }),
            Ok(slot) => Ok(commit_add(slot, id, name, owned, done, Some(completion), completion)),
        }
    }

    /// Runs the final shutdown check and hands a controller task to its reserved slot, or gives
    /// every value back.
    ///
    /// `completion` lets the controller wait for registry cleanup and full physical release before
    /// it reuses the slot.
    pub fn commit_reserved_controller_add<P, S>(
        &self,
        slot: P,
        id: TaskId,
        name: String,
        owned: OwnedTask<S>,
        done: Option<OutcomeTx<S>>,
        completion: RemovalCompletion,
    ) -> (enqueued: Result<Committed<P, S, AddReply>, UncommittedWatchedAdd<S>>)
        ensures
            if self@.shutting_down {
                enqueued matches Err(uncommitted) && {
                    &&& uncommitted.error@ == RuntimeErrorView::ShuttingDown
                    &&& uncommitted.name == name
                    &&& uncommitted.owned == owned
                    &&& uncommitted.done == done
                }
            } else {
                enqueued matches Ok(committed) && {
                    &&& committed.slot == slot
                    &&& event_views(committed.events@) == seq![
                        task_event(EventKind::TaskAddRequested, id, name@),
                    ]
                    &&& adds(
                        committed.command,
                        committed.reply,
                        id,
                        name,
                        owned,
                        done,
                        Some(completion),
                        completion,
                    )
                }
            },
    {
        if !self.command_admission() {
            return Err(
                UncommittedWatchedAdd { error: RuntimeError::ShuttingDown, name, owned, done },
            );
        }
        Ok(commit_add(slot, id, name, owned, done, Some(completion), completion))
    }

    /// Commits the complete static batch through one queue slot and one gate check, or gives every
    /// item back.
    pub fn enqueue_add_batch_wait<P, S>(
        &self,
        slot: Result<P, QueueRefusal>,
        items: Vec<AddBatchItem<S>>,
    ) -> (enqueued: Result<Committed<P, S, AddReply>, UncommittedBatch<S>>)
        ensures
            match slot {
                Ok(slot) if !self@.shutting_down => enqueued matches Ok(committed) && {
                    &&& committed.slot == slot
                    &&& event_views(committed.events@) == batch_requests(items@)
                    &&& committed.command matches RegistryCommand::AddBatch { items: added, reply }
                        && added == items && connected(reply, committed.reply)
                },
                _ => enqueued matches Err(uncommitted) && {
                    &&& uncommitted.error@ == (match slot {
                        Err(refusal) if !self@.shutting_down => refusal_error(refusal),
                        _ => RuntimeErrorView::ShuttingDown,
                    })
                    &&& uncommitted.items == items
                },
            },
    {
        match self.pass_gate(slot) {
            Err(error) => Err(UncommittedBatch { error, items }),
            Ok(slot) => {
                let (reply, reply_rx) = oneshot_channel();
                let mut events: Vec<Event> = Vec::new();
                let mut i: usize = 0;
                proof {
                    assert(event_views(events@) =~= batch_requests(items@).take(0));
                }
                while i < items.len()
                    invariant
                        i <= items@.len(),
                        event_views(events@) == batch_requests(items@).take(i as int),
                    decreases items@.len() - i,
                {
                    let ghost before = events@;
                    events.push(
                        task_event_of(EventKind::TaskAddRequested, items[i].id, &items[i].name),
                    );
                    i = i + 1;
                    proof {
                        assert(event_views(events@) =~= event_views(before).push(
                            events@.last()@,
                        ));
                        assert(event_views(events@) =~= batch_requests(items@).take(i as int));
                    }
                }
                proof {
                    assert(batch_requests(items@).take(i as int) =~= batch_requests(items@));
                }
                Ok(
                    Committed {
                        events,
                        slot,
                        command: RegistryCommand::AddBatch { items, reply },
                        reply: reply_rx,
                    },
                )
            },
        }
    }
}

/// Whether a fail-fast add ended like this after starting the destructor workers gave `workers`:
/// ownership is charged first, then the queue is asked for a slot.
pub open spec fn add_after_start<'a, S>(
    before: CoreView,
    sender: &'a mpsc::Sender<RegistryCommand<S>>,
    id: TaskId,
    spec: TaskSpec,
    ticket: u64,
    done: Option<OutcomeTx<S>>,
    fresh: RemovalCompletion,
    workers: Result<(), std::io::Error>,
    after: CoreView,
    enqueued: Result<
        Committed<mpsc::Permit<'a, RegistryCommand<S>>, S, AddReply>,
        UncommittedAdd<S>,
    >,
) -> bool {
    match workers {
        Err(source) => {
            &&& after == before
            &&& refused(enqueued, admission_error(DropAdmissionError::Start { source }), done)
        },
        Ok(()) => if !before.ownership.admits(1) {
            &&& after == before
            &&& refused(enqueued, admission_error(before.capacity_error()), done)
        } else {
            &&& after == before.charged_by(1)
            &&& exists|slot| #[trigger]
                reserved_from(sender, slot) && match slot {
                    Err(refusal) => given_up(enqueued, refusal_error(refusal), done, ticket),
                    Ok(slot) => enqueued matches Ok(committed) && committed.slot == slot
                        && committed_add(committed, id, spec, ticket, done, fresh),
                }
        },
    }
}

/// Whether an add was refused before anything was charged.
pub open spec fn refused<T, S>(
    enqueued: Result<T, UncommittedAdd<S>>,
    error: RuntimeErrorView,
    done: Option<OutcomeTx<S>>,
) -> bool {
    enqueued matches Err(uncommitted) && uncommitted.error@ == error && uncommitted.done == done
        && uncommitted.cleanup is None
}

/// Whether an add was given up after its values were charged.
pub open spec fn given_up<T, S>(
    enqueued: Result<T, UncommittedAdd<S>>,
    error: RuntimeErrorView,
    done: Option<OutcomeTx<S>>,
    ticket: u64,
) -> bool {
    enqueued matches Err(uncommitted) && uncommitted.error@ == error && uncommitted.done == done
        && (uncommitted.cleanup matches Some(bundle) && bundle.is_fresh(ticket))
}

/// Whether a commit adds a freshly charged task.
pub open spec fn committed_add<P, S>(
    committed: Committed<P, S, AddReply>,
    id: TaskId,
    spec: TaskSpec,
    ticket: u64,
    done: Option<OutcomeTx<S>>,
    fresh: RemovalCompletion,
) -> bool {
    &&& event_views(committed.events@) == seq![
        task_event(EventKind::TaskAddRequested, id, spec.name@),
    ]
    &&& committed.command matches RegistryCommand::Add { owned, .. } && {
        &&& owned.spec == spec
        &&& owned.cleanup.is_fresh(ticket)
        &&& adds(committed.command, committed.reply, id, spec.name, owned, done, None, fresh)
    }
}

} // verus!
