//! The supervisor's authoritative task membership.
//!
//! ```text
//! command queue ──► listener ──► admission ──► state ───────────► actor runtime
//! completion queue ─► listener ─► removal ───► terminal state ──► outcome and cleanup
//! ```
//!
//! `state` maps each task identity and name to one lifecycle entry. An entry moves from registered
//! to removing before it disappears. The winning removal claim owns the actor handle.
//!
//! Every operation takes the registry from one state to the next and lists the effects that the
//! runtime performs afterwards, in order.

use std::time::Duration;
use vstd::prelude::*;

pub mod actor;
pub mod admission;
pub mod admission_laws;
pub mod batch;
pub mod command_laws;
pub mod commands;
pub mod completion;
pub mod coordinator;
pub mod effects;
pub mod join;
pub mod laws;
pub mod listener;
pub mod operation_laws;
pub mod pending;
pub mod protocol;
pub mod query;
pub mod query_laws;
pub mod reaper;
pub mod reaper_laws;
pub mod reply_laws;
pub mod state;
pub mod terminal;
pub mod terminal_laws;

use crate::config::{limit_view, NonZeroUsize};
use crate::identity::TaskId;
use crate::task_defaults::TaskDefaults;
use actor::{ActorHandle, ActorTask};
use completion::RemovalCompletion;
use effects::{effect_views, Effect};
use pending::{PendingJoins, PendingView};
use reaper::{AttemptReaper, ReaperActivity, ReaperRecord, ReaperView};
use state::{Entry, EntryState, Handle, Inner, InnerView};

verus! {

/// Supervisor-owned registry.
#[verifier::reject_recursive_types(S)]
pub struct Registry<S> {
    /// Membership indexes and entry state.
    pub(crate) state: Inner<S>,
    /// Removal claims with pending terminal commits.
    pub(crate) pending_joins: PendingJoins,
    /// Force-aborted attempts that have not been released.
    pub(crate) actors: AttemptReaper<S>,
    /// Graceful actor-join deadline during removal.
    pub(crate) grace: Duration,
    /// Defaults for accepted task specifications.
    pub(crate) task_defaults: TaskDefaults,
    /// Optional limit for registered and physically reaping tasks.
    pub(crate) max_registered_tasks: Option<NonZeroUsize>,
}

/// Contents of a [`Registry`].
#[verifier::reject_recursive_types(S)]
pub struct RegistryView<S> {
    /// Membership.
    pub state: InnerView<S>,
    /// Removal claims with pending terminal commits.
    pub pending: PendingView,
    /// Force-aborted attempts.
    pub reaper: ReaperView<S>,
    /// Graceful actor-join deadline during removal.
    pub grace: Duration,
    /// Defaults for accepted task specifications.
    pub task_defaults: TaskDefaults,
    /// Limit for registered and physically reaping tasks.
    pub limit: Option<usize>,
}

impl<S> View for Registry<S> {
    type V = RegistryView<S>;

    closed spec fn view(&self) -> RegistryView<S> {
        RegistryView {
            state: self.state@,
            pending: self.pending_joins@,
            reaper: self.actors@,
            grace: self.grace,
            task_defaults: self.task_defaults,
            limit: limit_view(self.max_registered_tasks),
        }
    }
}

impl<S> RegistryView<S> {
    /// What every operation keeps: the indexes agree, every claimed entry has exactly one removal
    /// owner registered under its name, and no unclaimed entry has one.
    pub open spec fn valid(self) -> bool {
        &&& self.state.in_sync()
        &&& self.pending.valid()
        &&& forall|id: TaskId| #[trigger]
            self.state.is_removing(id) ==> self.pending.owners(id) == 1
                && self.pending.names.contains_key(id.raw) && self.pending.names[id.raw]
                == self.state.entry(id).name
        &&& forall|id: TaskId| #[trigger]
            self.state.is_registered(id) ==> self.pending.owners(id) == 0
    }

    /// Whether an identity is free: neither a member nor still being removed.
    pub open spec fn is_fresh(self, id: TaskId) -> bool {
        !self.state.contains(id) && self.pending.owners(id) == 0
    }
}

/// A change that leaves the pending removals alone, brings no new entry, and keeps the phase and
/// the name of every entry that stays, keeps what the registry promises of its states.
pub(crate) proof fn lemma_kept_phases_valid<S>(before: RegistryView<S>, after: RegistryView<S>)
    requires
        before.valid(),
        after.state.in_sync(),
        after.pending == before.pending,
        forall|id: TaskId| #[trigger]
            after.state.contains(id) ==> {
                &&& before.state.contains(id)
                &&& after.state.is_removing(id) == before.state.is_removing(id)
                &&& after.state.entry(id).name == before.state.entry(id).name
            },
    ensures
        after.valid(),
{
    assert forall|id: TaskId| #[trigger] after.state.is_removing(id) implies {
        &&& after.pending.owners(id) == 1
        &&& after.pending.names.contains_key(id.raw)
        &&& after.pending.names[id.raw] == after.state.entry(id).name
    } by {
        assert(after.state.contains(id));
        assert(before.state.is_removing(id));
    }
    assert forall|id: TaskId| #[trigger] after.state.is_registered(id) implies
        after.pending.owners(id) == 0 by {
        assert(after.state.contains(id));
        assert(before.state.is_registered(id));
    }
}

impl<S> Registry<S> {
    /// Registry without tasks.
    pub fn new(
        grace: Duration,
        task_defaults: TaskDefaults,
        max_registered_tasks: Option<NonZeroUsize>,
    ) -> (registry: Registry<S>)
        ensures
            registry@.valid(),
            registry@.state == InnerView::<S>::none(),
            registry@.pending == PendingView::none(),
            registry@.reaper.records == Seq::<ReaperRecord<S>>::empty(),
            registry@.reaper.activities == Seq::<ReaperActivity>::empty(),
            registry@.grace == grace,
            registry@.task_defaults == task_defaults,
            registry@.limit == limit_view(max_registered_tasks),
    {
        Registry {
            state: Inner::new(),
            pending_joins: PendingJoins::new(),
            actors: AttemptReaper::new(),
            grace,
            task_defaults,
            max_registered_tasks,
        }
    }

    /// Graceful actor-join deadline during removal.
    pub fn grace(&self) -> (grace: Duration)
        ensures
            grace == self@.grace,
    {
        self.grace
    }

    /// Attempts that still retain physical ownership.
    pub fn reaping_attempts(&self) -> (attempts: usize)
        ensures
            attempts == self@.reaper.records.len(),
    {
        self.actors.active()
    }

    /// Stores the task of a freshly spawned actor in its registered entry.
    ///
    /// The task comes back when the entry was claimed or is gone.
    pub fn attach_actor_task(&mut self, id: TaskId, join: ActorTask<S>) -> (unused: Option<
        ActorTask<S>,
    >)
        requires
            old(self)@.valid(),
        ensures
            final(self)@.valid(),
            old(self)@.state.is_registered(id) ==> {
                let entry = old(self)@.state.entry(id);
                let handle = entry.state->Registered_0;
                &&& unused is None
                &&& final(self)@ == (RegistryView {
                    state: InnerView {
                        tasks: old(self)@.state.tasks.insert(
                            id.raw,
                            Entry {
                                state: EntryState::Registered(
                                    Handle {
                                        join: ActorHandle {
                                            join_slot: Some(join),
                                            ..handle.join
                                        },
                                        ..handle
                                    },
                                ),
                                ..entry
                            },
                        ),
                        ..old(self)@.state
                    },
                    ..old(self)@
                })
            },
            !old(self)@.state.is_registered(id) ==> unused == Some(join) && final(self)@ == old(
                self,
            )@,
    {
        let unused = self.state.fill_join_slot(id, join);
        proof {
            lemma_kept_phases_valid(old(self)@, self@);
        }
        unused
    }

    /// Physical exit of a reaped attempt.
    pub fn reap(
        &mut self,
        id: TaskId,
        release: RemovalCompletion,
        output: u64,
        poisoned: bool,
    ) -> (effects: Vec<Effect<S>>)
        requires
            old(self)@.valid(),
        ensures
            final(self)@.valid(),
            final(self)@ == (RegistryView {
                reaper: old(self)@.reaper.after_physical(id, release, output, poisoned),
                ..old(self)@
            }),
            effect_views(effects@) == old(self)@.reaper.physical_effects(
                id,
                release,
                output,
                poisoned,
            ),
    {
        self.actors.reap(id, release, output, poisoned)
    }

    /// Whether an identity is free: neither a member nor still being removed.
    pub fn is_fresh(&self, id: TaskId) -> (fresh: bool)
        requires
            self@.valid(),
        ensures
            fresh == self@.is_fresh(id),
    {
        !self.state.contains(id) && !self.pending_joins.contains(id)
    }
}

} // verus!
