//! Turns add commands into registry entries.
//!
//! Admission checks name ownership and the registration limit. Name conflicts include current
//! membership and force-aborted attempts that have not physically exited; the limit counts both.
//! A rejected add enters no index and starts no task body. A batch commits every item or none.
//! On acceptance both indexes are updated before the events, the direct reply, the actor spawn,
//! and the opening of the start gate.

use tokio::sync::oneshot;
use vstd::prelude::*;
use vstd::string::*;

use super::actor::{unspawned, ActorRegistration, ScheduledActor};
use super::completion::{OutcomeTx, RemovalCompletion};
use super::effects::{
    effect_views, lemma_effect_views_push, Effect, EffectView,
};
use super::protocol::{AddReply, OwnedTask};
use super::state::{Entry, EntryState, Handle};
use super::{Registry, RegistryView};
use crate::channel::{connected, send_or_return, sent_leaving};
use crate::deferred_drop::DropBundle;
use crate::error::{RuntimeError, RuntimeErrorView};
use crate::events::{task_event, Event, EventKind, EventView, RejectionKind};
use crate::identity::TaskId;
use crate::outcome::{TaskOutcome, TaskOutcomeView};
use crate::reasons::{ALREADY_EXISTS, REGISTERED_TASK_LIMIT};
use crate::task_defaults::TaskDefaults;
use crate::text::{append_size, decimal};

verus! {

/// Resource name of the registration limit.
pub const REGISTERED_TASKS: &'static str = "registered_tasks";

/// Why a single add is refused.
pub enum Refusal {
    /// The name is taken.
    AlreadyExists,
    /// The registration limit is reached.
    Limit(usize),
}

impl<S> RegistryView<S> {
    /// Whether a name cannot be given to a new task.
    pub open spec fn name_taken(self, name: Seq<char>) -> bool {
        self.state.owner_of(name) is Some || self.reaper.reserves(name)
    }

    /// The limit, if that many more tasks would exceed it.
    ///
    /// Force-aborted attempts count as long as they are not released.
    pub open spec fn limit_exceeded(self, incoming: nat) -> Option<usize> {
        match self.limit {
            Some(limit) => if self.state.tasks.len() + self.reaper.records.len() + incoming
                > limit {
                Some(limit)
            } else {
                None
            },
            None => None,
        }
    }

    /// Why one more task of that name is refused, if it is.
    pub open spec fn refusal(self, name: Seq<char>) -> Option<Refusal> {
        if self.name_taken(name) {
            Some(Refusal::AlreadyExists)
        } else {
            match self.limit_exceeded(1) {
                Some(limit) => Some(Refusal::Limit(limit)),
                None => None,
            }
        }
    }
}

impl Refusal {
    /// Category reported for the refusal.
    pub open spec fn kind(self) -> RejectionKind {
        match self {
            Refusal::AlreadyExists => RejectionKind::AlreadyExists,
            Refusal::Limit(_) => RejectionKind::ResourceLimit,
        }
    }

    /// Reason reported for the refusal.
    pub open spec fn reason(self) -> Seq<char> {
        match self {
            Refusal::AlreadyExists => ALREADY_EXISTS@,
            Refusal::Limit(limit) => REGISTERED_TASK_LIMIT@ + ": "@ + decimal(limit as nat),
        }
    }

    /// Error returned to the caller.
    pub open spec fn error(self, name: Seq<char>) -> RuntimeErrorView {
        match self {
            Refusal::AlreadyExists => RuntimeErrorView::TaskAlreadyExists { name },
            Refusal::Limit(limit) => RuntimeErrorView::ResourceLimitReached {
                resource: REGISTERED_TASKS@,
                limit,
            },
        }
    }
}

/// Event of a refused add.
pub open spec fn add_failed_event(
    id: TaskId,
    name: Seq<char>,
    kind: RejectionKind,
    reason: Seq<char>,
) -> EventView {
    EventView {
        rejection: Some(kind),
        reason: Some(reason),
        ..task_event(EventKind::TaskAddFailed, id, name)
    }
}

/// Effects of a refused add: the caller is answered, then the watcher, and the event comes last.
pub open spec fn refusal_effects<S>(
    refusal: Refusal,
    id: TaskId,
    name: Seq<char>,
    done: Option<OutcomeTx<S>>,
    cleanup: DropBundle<S>,
    reply: oneshot::Sender<AddReply>,
) -> Seq<EffectView<S>> {
    seq![
        EffectView::ReplyAdd(reply, Err(refusal.error(name))),
        EffectView::Settle {
            done,
            outcome: TaskOutcomeView::Rejected { kind: refusal.kind(), reason: refusal.reason() },
            cleanup,
        },
        EffectView::Publish(add_failed_event(id, name, refusal.kind(), refusal.reason())),
    ]
}

/// Effects of an accepted add: event, direct reply, spawn, start gate.
pub open spec fn acceptance_effects<S>(
    id: TaskId,
    name: Seq<char>,
    actor: ScheduledActor<S>,
    reply: oneshot::Sender<AddReply>,
) -> Seq<EffectView<S>> {
    seq![
        EffectView::Publish(task_event(EventKind::TaskAdded, id, name)),
        EffectView::ReplyAdd(reply, Ok(())),
        EffectView::Schedule(actor),
        EffectView::OpenStartGate,
    ]
}

/// Entry of a task that was just accepted.
pub open spec fn fresh_entry<S>(
    entry: Entry<S>,
    id: TaskId,
    name: String,
    done: Option<OutcomeTx<S>>,
    completion: RemovalCompletion,
    cleanup: DropBundle<S>,
) -> bool {
    &&& entry.name == name
    &&& !entry.activity
    &&& entry.state matches EntryState::Registered(handle) && {
        &&& unspawned(
            handle.join,
            ActorRegistration { id, name, physical_release: completion },
        )
        &&& handle.done == done
        &&& handle.completion == completion
        &&& handle.cleanup == cleanup
    }
}

/// Whether an entry and an actor are the two halves of a task that was just accepted: the actor
/// runs with the resolved settings, and its result reaches the handle in the entry.
pub open spec fn prepared_pair<S>(
    entry: Entry<S>,
    actor: ScheduledActor<S>,
    id: TaskId,
    name: String,
    owned: OwnedTask<S>,
    done: Option<OutcomeTx<S>>,
    completion: RemovalCompletion,
    defaults: TaskDefaults,
) -> bool {
    &&& fresh_entry(entry, id, name, done, completion, owned.cleanup)
    &&& actor.id == id
    &&& actor.params == owned.spec.resolved(defaults)
    &&& entry.state matches EntryState::Registered(handle) && (
    handle.join.result matches Some(receiver) && connected(actor.result, receiver))
}

/// Latch pair of a task: the caller's, or else a fresh one.
pub open spec fn chosen_latch(
    completion: Option<RemovalCompletion>,
    fresh: RemovalCompletion,
) -> RemovalCompletion {
    match completion {
        Some(completion) => completion,
        None => fresh,
    }
}

/// One prepared actor until admission commits or rejects it.
#[verifier::reject_recursive_types(S)]
pub struct PreparedRegistration<S> {
    /// Identity assigned to the task.
    pub id: TaskId,
    /// Entry to index.
    pub entry: Entry<S>,
    /// Actor waiting to be submitted to the scheduler.
    pub scheduled: ScheduledActor<S>,
}

/// Whether an outcome was offered to its watcher and this is left of it: the watcher's channel
/// decides, and without a watcher all of it is left.
pub open spec fn offered<S>(
    done: Option<OutcomeTx<S>>,
    outcome: TaskOutcome<S>,
    left: Option<TaskOutcome<S>>,
) -> bool {
    &&& match done {
        Some(done) => sent_leaving(done, outcome, left),
        None => left == Some(outcome),
    }
    &&& left is Some ==> left == Some(outcome)
}

/// Offers an outcome to its watcher and gives back what is left of it.
pub(crate) fn offer<S>(done: Option<OutcomeTx<S>>, outcome: TaskOutcome<S>) -> (left: Option<
    TaskOutcome<S>,
>)
    ensures
        offered(done, outcome, left),
{
    match done {
        Some(done) => send_or_return(done, outcome),
        None => Some(outcome),
    }
}

/// Outcomes that a bundle keeps, together with what is left of one more.
pub open spec fn kept_with<S>(
    outcomes: Seq<TaskOutcome<S>>,
    left: Option<TaskOutcome<S>>,
) -> Seq<TaskOutcome<S>> {
    match left {
        Some(outcome) => outcomes.push(outcome),
        None => outcomes,
    }
}

/// Delivers a rejection or attaches it to the existing cleanup bundle.
///
/// The bundle owns the outcome when no receiver accepts it. Whether a receiver accepts it is up to
/// the watcher; [`attach_undelivered`] says what follows.
pub fn deliver_or_attach_rejection<S>(
    done: Option<OutcomeTx<S>>,
    outcome: TaskOutcome<S>,
    cleanup: &mut DropBundle<S>,
)
    ensures
        exists|left: Option<TaskOutcome<S>>| #[trigger]
            offered(done, outcome, left) && final(cleanup).outcomes@ == kept_with(
                old(cleanup).outcomes@,
                left,
            ),
        final(cleanup).ticket == old(cleanup).ticket,
        final(cleanup).output == old(cleanup).output,
        final(cleanup).payload == old(cleanup).payload,
        final(cleanup).poisoned == old(cleanup).poisoned,
{
    let left = offer(done, outcome);
    attach_undelivered(left, cleanup);
}

/// Keeps an outcome that nobody received with the user values it belongs to.
pub fn attach_undelivered<S>(undelivered: Option<TaskOutcome<S>>, cleanup: &mut DropBundle<S>)
    ensures
        final(cleanup).outcomes@ == kept_with(old(cleanup).outcomes@, undelivered),
        final(cleanup).ticket == old(cleanup).ticket,
        final(cleanup).output == old(cleanup).output,
        final(cleanup).payload == old(cleanup).payload,
        final(cleanup).poisoned == old(cleanup).poisoned,
{
    if let Some(outcome) = undelivered {
        cleanup.attach_outcome(outcome);
    }
}

/// Reason of a single add beyond the limit.
fn limit_reason(limit: usize) -> (reason: String)
    ensures
        reason@ == Refusal::Limit(limit).reason(),
{
    let mut reason = REGISTERED_TASK_LIMIT.to_owned();
    reason.append(": ");
    append_size(&mut reason, limit);
    reason
}

/// Reason of a batch beyond the limit.
pub open spec fn batch_limit_reason_view(current: nat, limit: nat) -> Seq<char> {
    REGISTERED_TASK_LIMIT@ + ": "@ + decimal(current) + "/"@ + decimal(limit)
}

/// Reason of a batch beyond the limit.
pub(crate) fn batch_limit_reason(current: usize, limit: usize) -> (reason: String)
    ensures
        reason@ == batch_limit_reason_view(current as nat, limit as nat),
{
    let mut reason = REGISTERED_TASK_LIMIT.to_owned();
    reason.append(": ");
    append_size(&mut reason, current);
    reason.append("/");
    append_size(&mut reason, limit);
    reason
}

/// Event of a refused add.
pub(crate) fn add_failed(id: TaskId, name: &String, kind: RejectionKind, reason: &str) -> (event: Event)
    ensures
        event@ == add_failed_event(id, name@, kind, reason@),
{
    Event::new(EventKind::TaskAddFailed).with_task(name.as_str()).with_id(id).with_rejection_kind(
        kind,
    ).with_reason(reason)
}

/// Event about one task and nothing more.
pub(crate) fn task_event_of(kind: EventKind, id: TaskId, name: &String) -> (event: Event)
    ensures
        event@ == task_event(kind, id, name@),
{
    Event::new(kind).with_task(name.as_str()).with_id(id)
}

impl<S> Registry<S> {
    /// The registration limit when an incoming set would exceed it.
    ///
    /// Force-aborted attempts remain counted while registry ownership is being removed. This keeps
    /// the bound strict.
    pub fn registered_limit_exceeded(&self, incoming: usize) -> (exceeded: Option<usize>)
        ensures
            exceeded == self@.limit_exceeded(incoming as nat),
    {
        let current = self.state.len();
        match self.max_registered_tasks {
            None => None,
            Some(limit) => {
                let limit = limit.get();
                let exceeds = match current.checked_add(self.actors.active()) {
                    None => true,
                    Some(used) => match used.checked_add(incoming) {
                        None => true,
                        Some(total) => total > limit,
                    },
                };
                if exceeds {
                    Some(limit)
                } else {
                    None
                }
            },
        }
    }

    /// Whether a name cannot be given to a new task.
    pub fn name_taken(&self, name: &String) -> (taken: bool)
        ensures
            taken == self@.name_taken(name@),
    {
        self.state.owner_of(name.as_str()).is_some() || self.actors.reserves_name(name)
    }

    /// Why one more task of that name is refused, if it is.
    pub fn check_single(&self, name: &String) -> (refusal: Option<Refusal>)
        ensures
            refusal == self@.refusal(name@),
    {
        if self.name_taken(name) {
            Some(Refusal::AlreadyExists)
        } else {
            match self.registered_limit_exceeded(1) {
                Some(limit) => Some(Refusal::Limit(limit)),
                None => None,
            }
        }
    }

    /// Resolves task defaults and builds the entry of a task and its actor.
    ///
    /// The actor is not spawned. A task without a latch pair of its own gets `fresh`.
    pub(crate) fn prepare_registration(
        &self,
        id: TaskId,
        name: String,
        owned: OwnedTask<S>,
        done: Option<OutcomeTx<S>>,
        completion: Option<RemovalCompletion>,
        fresh: RemovalCompletion,
    ) -> (prepared: PreparedRegistration<S>)
        ensures
            prepared.id == id,
            prepared_pair(
                prepared.entry,
                prepared.scheduled,
                id,
                name,
                owned,
                done,
                chosen_latch(completion, fresh),
                self@.task_defaults,
            ),
    {
        let params = owned.spec.resolve(&self.task_defaults);
        let completion = match completion {
            Some(completion) => completion,
            None => fresh,
        };
        let registration = ActorRegistration {
            id,
            name: name.clone(),
            physical_release: completion,
        };
        let (scheduled, join) = ScheduledActor::new(registration, params);
        PreparedRegistration {
            id,
            entry: Entry {
                name,
                activity: false,
                state: EntryState::Registered(
                    Handle { join, done, completion, cleanup: owned.cleanup },
                ),
            },
            scheduled,
        }
    }

    /// Applies the decision for one add command.
    ///
    /// A refused task leaves the registry unchanged; the caller is answered, then the watcher, and
    /// the event comes last. An accepted task is indexed before anything else happens.
    pub fn spawn_and_register(
        &mut self,
        id: TaskId,
        name: String,
        owned: OwnedTask<S>,
        done: Option<OutcomeTx<S>>,
        completion: Option<RemovalCompletion>,
        fresh: RemovalCompletion,
        reply: oneshot::Sender<AddReply>,
    ) -> (effects: Vec<Effect<S>>)
        requires
            old(self)@.valid(),
            old(self)@.is_fresh(id),
        ensures
            final(self)@.valid(),
            match old(self)@.refusal(name@) {
                Some(refusal) => {
                    &&& final(self)@ == old(self)@
                    &&& effect_views(effects@) == refusal_effects(
                        refusal,
                        id,
                        name@,
                        done,
                        owned.cleanup,
                        reply,
                    )
                },
                None => {
                    &&& exists|entry: Entry<S>, actor: ScheduledActor<S>|
                        {
                            &&& #[trigger] prepared_pair(
                                entry,
                                actor,
                                id,
                                name,
                                owned,
                                done,
                                chosen_latch(completion, fresh),
                                old(self)@.task_defaults,
                            )
                            &&& final(self)@ == (RegistryView {
                                state: old(self)@.state.indexed(id, entry),
                                ..old(self)@
                            })
                            &&& effect_views(effects@) == acceptance_effects(
                                id,
                                name@,
                                actor,
                                reply,
                            )
                        }
                },
            },
    {
        broadcast use lemma_effect_views_push;

        let mut effects: Vec<Effect<S>> = Vec::new();
        proof {
            assert(effect_views(effects@) =~= Seq::empty());
        }
        match self.check_single(&name) {
            Some(refusal) => {
                let event: Event;
                let outcome: TaskOutcome<S>;
                let error: RuntimeError;
                match refusal {
                    Refusal::AlreadyExists => {
                        event = add_failed(id, &name, RejectionKind::AlreadyExists, ALREADY_EXISTS);
                        outcome = TaskOutcome::Rejected {
                            kind: RejectionKind::AlreadyExists,
                            reason: ALREADY_EXISTS.to_owned(),
                        };
                        error = RuntimeError::TaskAlreadyExists { name };
                    },
                    Refusal::Limit(limit) => {
                        let reason = limit_reason(limit);
                        event = add_failed(id, &name, RejectionKind::ResourceLimit, reason.as_str());
                        outcome = TaskOutcome::Rejected {
                            kind: RejectionKind::ResourceLimit,
                            reason,
                        };
                        error = RuntimeError::ResourceLimitReached {
                            resource: REGISTERED_TASKS,
                            limit,
                        };
                    },
                }
                effects.push(Effect::ReplyAdd(reply, Err(error)));
                effects.push(Effect::Settle { done, outcome, cleanup: owned.cleanup });
                effects.push(Effect::Publish(event));
                proof {
                    assert(effect_views(effects@) =~= refusal_effects(
                        refusal,
                        id,
                        name@,
                        done,
                        owned.cleanup,
                        reply,
                    ));
                }
            },
            None => {
                let event = task_event_of(EventKind::TaskAdded, id, &name);
                let prepared = self.prepare_registration(id, name, owned, done, completion, fresh);
                let ghost entry = prepared.entry;
                let ghost actor = prepared.scheduled;
                self.state.index(id, prepared.entry);
                proof {
                    lemma_indexed_valid(old(self)@, id, entry);
                }
                effects.push(Effect::Publish(event));
                effects.push(Effect::ReplyAdd(reply, Ok(())));
                effects.push(Effect::Schedule(prepared.scheduled));
                effects.push(Effect::OpenStartGate);
                proof {
                    assert(effect_views(effects@) =~= acceptance_effects(id, name@, actor, reply));
                    assert(prepared_pair(
                        entry,
                        actor,
                        id,
                        name,
                        owned,
                        done,
                        chosen_latch(completion, fresh),
                        old(self)@.task_defaults,
                    ));
                }
            },
        }
        effects
    }
}

/// A free identity and a free name can be indexed.
pub(crate) proof fn lemma_indexed_valid<S>(view: RegistryView<S>, id: TaskId, entry: Entry<S>)
    requires
        view.valid(),
        view.is_fresh(id),
        view.state.owner_of(entry.name@) is None,
        entry.state is Registered,
        view.state.indexed(id, entry).in_sync(),
    ensures
        (RegistryView { state: view.state.indexed(id, entry), ..view }).valid(),
{
    let next = RegistryView { state: view.state.indexed(id, entry), ..view };
    assert forall|other: TaskId| #[trigger] next.state.is_removing(other) implies {
        &&& next.pending.owners(other) == 1
        &&& next.pending.names.contains_key(other.raw)
        &&& next.pending.names[other.raw] == next.state.entry(other).name
    } by {
        assert(other.raw != id.raw);
        assert(view.state.is_removing(other));
    }
    assert forall|other: TaskId| #[trigger] next.state.is_registered(other) implies
        next.pending.owners(other) == 0 by {
        if other.raw != id.raw {
            assert(view.state.is_registered(other));
        } else {
            assert(other == id);
        }
    }
}

} // verus!
