//! What the registry promises across operations.

use tokio::sync::oneshot;
use vstd::prelude::*;

use super::RegistryView;
use super::actor::ScheduledActor;
use super::admission::Refusal;
use super::batch::{
    batch_decision, conflict_flags, conflicts, first_conflict, fresh_batch, indexed_upto,
    lemma_batch_members, prepared_batch, prepared_item,
};
use super::completion::RemovalCompletion;
use super::effects::EffectView;
use super::protocol::{AddBatchItem, AddReply, CancelDecision};
use super::reaper_laws::{
    awaits_exit, law_terminal_reports_keep_running_attempts, tracked_attempts,
};
use super::state::Entry;
use super::terminal::TailView;
use crate::identity::TaskId;
use crate::search::lemma_first_where;

verus! {

/// A removal is claimed at most once: after a claim of a task nobody can win it again.
pub proof fn law_a_removal_is_claimed_once<S>(view: RegistryView<S>, id: TaskId)
    ensures
        view.claimed(id).claim(id) is None,
        view.claimed(id).claimed(id) == view.claimed(id),
{
}

/// A claim touches no other task, and takes neither the entry nor the name out of the indexes.
pub proof fn law_a_claim_keeps_membership_and_names<S>(
    view: RegistryView<S>,
    id: TaskId,
    other: TaskId,
    name: Seq<char>,
)
    ensures
        view.claimed(id).state.contains(other) == view.state.contains(other),
        view.claimed(id).state.owner_of(name) == view.state.owner_of(name),
        view.claimed(id).name_taken(name) == view.name_taken(name),
        other != id ==> view.claimed(id).state.entry(other) == view.state.entry(other),
        other != id ==> view.claimed(id).claim(other) == view.claim(other),
{
    assert(other.raw == id.raw ==> other == id);
}

/// Of all cancellations of a task exactly the one that claims it says so, and every later one
/// waits for the same completion.
pub proof fn law_later_cancels_join_the_first<S>(view: RegistryView<S>, id: TaskId)
    requires
        view.state.is_registered(id),
    ensures
        view.cancel_decision(id) matches Some(first) && {
            &&& first.claimed
            &&& view.claimed(id).cancel_decision(id) == Some(
                CancelDecision { claimed: false, ..first },
            )
        },
{
}

/// An accepted task fits under the registration limit together with everything still reaping.
pub proof fn law_accepted_tasks_fit_the_limit<S>(
    view: RegistryView<S>,
    id: TaskId,
    entry: Entry<S>,
)
    requires
        view.valid(),
        view.is_fresh(id),
        view.refusal(entry.name@) is None,
    ensures
        view.limit matches Some(limit) ==> view.state.indexed(id, entry).tasks.len()
            + view.reaper.records.len() <= limit,
{
    assert(view.limit_exceeded(1) is None);
    assert(view.state.indexed(id, entry).tasks.dom() =~= view.state.tasks.dom().insert(id.raw));
}

/// An accepted name is taken from then on.
pub proof fn law_an_accepted_name_is_taken<S>(view: RegistryView<S>, id: TaskId, entry: Entry<S>)
    ensures
        (RegistryView { state: view.state.indexed(id, entry), ..view }).name_taken(entry.name@),
        (RegistryView { state: view.state.indexed(id, entry), ..view }).refusal(entry.name@)
            == Some(Refusal::AlreadyExists),
{
}

/// A batch commits every item or none.
pub proof fn law_a_batch_is_all_or_nothing<S>(
    before: RegistryView<S>,
    items: Seq<AddBatchItem<S>>,
    reply: oneshot::Sender<AddReply>,
    after: RegistryView<S>,
    effects: Seq<EffectView<S>>,
)
    requires
        batch_decision(before, items, reply, after, effects),
    ensures
        after == before || forall|i: int|
            0 <= i < items.len() ==> after.state.contains((#[trigger] items[i]).id)
                && after.state.by_name.contains_key(items[i].name@),
{
    if first_conflict(before, items) is None && before.limit_exceeded(items.len()) is None {
        let (entries, actors) = choose|entries: Seq<Entry<S>>, actors: Seq<ScheduledActor<S>>|
            #[trigger] prepared_batch(items, entries, actors, before.task_defaults) && after == (
            RegistryView {
                state: indexed_upto(before.state, items, entries, items.len() as int),
                ..before
            });
        assert forall|i: int| 0 <= i < items.len() implies (#[trigger] entries[i]).name
            == items[i].name by {
            assert(prepared_item(items[i], entries[i], actors[i], before.task_defaults));
        }
        lemma_batch_members(before.state, items, entries, items.len() as int);
        assert forall|i: int| 0 <= i < items.len() implies after.state.contains(
            (#[trigger] items[i]).id,
        ) && after.state.by_name.contains_key(items[i].name@) by {
            assert(after.state.tasks.contains_key(items[i].id.raw));
        }
    }
}

/// A batch is refused exactly when one of its names is taken or repeats, or when it does not fit
/// under the limit.
pub proof fn law_a_batch_is_refused_for_names_or_limit<S>(
    before: RegistryView<S>,
    items: Seq<AddBatchItem<S>>,
    reply: oneshot::Sender<AddReply>,
    after: RegistryView<S>,
    effects: Seq<EffectView<S>>,
)
    requires
        batch_decision(before, items, reply, after, effects),
    ensures
        ({
            let conflict = exists|i: int|
                0 <= i < items.len() && #[trigger] conflicts(before, items, i);
            &&& conflict <==> first_conflict(before, items) is Some
            &&& (conflict || before.limit_exceeded(items.len()) is Some) ==> after == before
        }),
{
    let flags = conflict_flags(before, items);
    lemma_first_where(flags, |conflict: bool| conflict);
    if first_conflict(before, items) is Some {
        let i = first_conflict(before, items)->0;
        assert(flags[i]);
        assert(conflicts(before, items, i));
    }
    if exists|i: int|
        0 <= i < items.len() && #[trigger] conflicts(before, items, i) {
        let i = choose|i: int|
            0 <= i < items.len() && #[trigger] conflicts(before, items, i);
        assert(flags[i]);
    }
}

/// The whole life of a task leaves no trace in membership and in the pending removals: adding it,
/// claiming it, and committing its removal leads back to where the registry was.
pub proof fn law_a_finished_task_leaves_no_trace<S>(
    view: RegistryView<S>,
    id: TaskId,
    entry: Entry<S>,
    tail: TailView<S>,
)
    requires
        view.valid(),
        view.is_fresh(id),
        view.state.owner_of(entry.name@) is None,
        entry.state is Registered,
        tail.barriers.id == id,
    ensures
        ({
            let added = RegistryView { state: view.state.indexed(id, entry), ..view };
            let claimed = added.claimed(id);
            let committed = RegistryView { state: claimed.state.without(id), ..claimed };
            let done = committed.finalized(tail);
            &&& claimed.state.is_removing(id)
            &&& claimed.pending.owners(id) == 1
            &&& done.state == view.state
            &&& done.pending == view.pending
            &&& done.is_fresh(id)
        }),
{
    let added = RegistryView { state: view.state.indexed(id, entry), ..view };
    let claimed = added.claimed(id);
    let committed = RegistryView { state: claimed.state.without(id), ..claimed };
    let done = committed.finalized(tail);
    assert(claimed.state.without(id).tasks =~= view.state.tasks);
    assert(claimed.state.without(id).by_name =~= view.state.by_name);
    assert(!view.pending.names.contains_key(id.raw));
    assert(done.pending =~= view.pending);
}

/// The name of a force-aborted task stays taken after its removal is committed and reported, for
/// as long as the attempt has not physically exited.
pub proof fn law_a_running_attempt_keeps_its_name<S>(
    view: RegistryView<S>,
    id: TaskId,
    release: RemovalCompletion,
    name: Seq<char>,
    tail: TailView<S>,
)
    requires
        tracked_attempts(view.reaper),
        awaits_exit(view.reaper, name, id, release),
    ensures
        view.finalized(tail).name_taken(name),
        view.finalized(tail).refusal(name) == Some(Refusal::AlreadyExists),
        awaits_exit(view.finalized(tail).reaper, name, id, release),
{
    law_terminal_reports_keep_running_attempts(
        view.reaper,
        name,
        id,
        release,
        tail.barriers.id,
        tail.terminal,
        tail.barriers.releases(),
    );
}

/// Whether no claimed task is back among the unclaimed ones.
pub open spec fn phases_forward<S>(before: RegistryView<S>, after: RegistryView<S>) -> bool {
    forall|id: TaskId| #[trigger]
        before.state.is_removing(id) ==> !after.state.is_registered(id)
}

/// A task moves from registered to removing to absent, and never back: not by adding another task,
/// not by a claim, not by a commit, not by the tail of a removal.
pub proof fn law_phases_only_move_forward<S>(
    view: RegistryView<S>,
    id: TaskId,
    entry: Entry<S>,
    tail: TailView<S>,
)
    requires
        view.valid(),
    ensures
        view.is_fresh(id) ==> phases_forward(
            view,
            RegistryView { state: view.state.indexed(id, entry), ..view },
        ),
        phases_forward(view, view.claimed(id)),
        phases_forward(view, RegistryView { state: view.state.without(id), ..view }),
        phases_forward(view, view.finalized(tail)),
{
    let added = RegistryView { state: view.state.indexed(id, entry), ..view };
    if view.is_fresh(id) {
        assert forall|other: TaskId| #[trigger] view.state.is_removing(other) implies
            !added.state.is_registered(other) by {
            assert(other.raw != id.raw) by {
                if other.raw == id.raw {
                    assert(other == id);
                }
            }
        }
    }
}

/// Indexing `n` new identities makes `n` more members.
proof fn lemma_indexed_len<S>(
    view: RegistryView<S>,
    items: Seq<AddBatchItem<S>>,
    entries: Seq<Entry<S>>,
    n: int,
)
    requires
        0 <= n <= items.len(),
        entries.len() == items.len(),
        view.state.tasks.dom().finite(),
        fresh_batch(view, items),
        forall|i: int| 0 <= i < items.len() ==> (#[trigger] entries[i]).name == items[i].name,
    ensures
        indexed_upto(view.state, items, entries, n).tasks.dom().finite(),
        indexed_upto(view.state, items, entries, n).tasks.len() == view.state.tasks.len() + n,
    decreases n,
{
    if n > 0 {
        lemma_indexed_len(view, items, entries, n - 1);
        lemma_batch_members(view.state, items, entries, n - 1);
        let before = indexed_upto(view.state, items, entries, n - 1);
        let after = indexed_upto(view.state, items, entries, n);
        let raw = items[n - 1].id.raw;
        assert(view.is_fresh(items[n - 1].id));
        if before.tasks.contains_key(raw) {
            let i = choose|i: int| 0 <= i < n - 1 && (#[trigger] items[i]).id.raw == raw;
            assert(items[i].id != items[n - 1].id);
            assert(false);
        }
        assert(after.tasks.dom() =~= before.tasks.dom().insert(raw));
    }
}

/// An accepted batch fits under the registration limit together with everything still reaping.
pub proof fn law_accepted_batches_fit_the_limit<S>(
    before: RegistryView<S>,
    items: Seq<AddBatchItem<S>>,
    reply: oneshot::Sender<AddReply>,
    after: RegistryView<S>,
    effects: Seq<EffectView<S>>,
)
    requires
        before.valid(),
        fresh_batch(before, items),
        batch_decision(before, items, reply, after, effects),
        first_conflict(before, items) is None,
        before.limit_exceeded(items.len()) is None,
    ensures
        after.limit matches Some(limit) ==> after.state.tasks.len() + after.reaper.records.len()
            <= limit,
        after.state.tasks.len() == before.state.tasks.len() + items.len(),
{
    let (entries, actors) = choose|entries: Seq<Entry<S>>, actors: Seq<ScheduledActor<S>>|
        #[trigger] prepared_batch(items, entries, actors, before.task_defaults) && after == (
        RegistryView {
            state: indexed_upto(before.state, items, entries, items.len() as int),
            ..before
        });
    assert forall|i: int| 0 <= i < items.len() implies (#[trigger] entries[i]).name
        == items[i].name by {
        assert(prepared_item(items[i], entries[i], actors[i], before.task_defaults));
    }
    lemma_indexed_len(before, items, entries, items.len() as int);
}

/// The removal barrier is drained only when no member is being removed.
pub proof fn law_a_drained_barrier_means_no_removal<S>(view: RegistryView<S>)
    requires
        view.valid(),
        view.pending.drained(),
    ensures
        forall|id: TaskId| !#[trigger] view.state.is_removing(id),
{
    assert forall|id: TaskId| !#[trigger] view.state.is_removing(id) by {
        if view.state.is_removing(id) {
            assert(view.pending.owners(id) == 1);
            assert(view.pending.counts.dom().contains(id.raw));
        }
    }
}

/// What every state of the registry keeps: the two indexes lead to each other, a task on its way
/// out has exactly one removal owner, listed under the task's name, and no other member has one.
pub proof fn law_indexes_and_owners_agree<S>(view: RegistryView<S>, id: u64, name: Seq<char>)
    requires
        view.valid(),
    ensures
        view.state.tasks.contains_key(id) ==> {
            let entry = view.state.tasks[id];
            &&& view.state.by_name.contains_key(entry.name@)
            &&& view.state.by_name[entry.name@] == id
            &&& entry.state is Removing ==> {
                &&& view.pending.counts.contains_key(id)
                &&& view.pending.counts[id] == 1
                &&& view.pending.names.contains_key(id)
                &&& view.pending.names[id] == entry.name
            }
            &&& entry.state is Registered ==> !view.pending.counts.contains_key(id)
        },
        view.state.by_name.contains_key(name) ==> {
            &&& view.state.tasks.contains_key(view.state.by_name[name])
            &&& view.state.tasks[view.state.by_name[name]].name@ == name
        },
        view.pending.names.contains_key(id) ==> view.pending.counts.contains_key(id),
        view.pending.counts.contains_key(id) ==> view.pending.counts[id] >= 1,
{
    let task = TaskId { raw: id };
    if view.state.tasks.contains_key(id) {
        if view.state.tasks[id].state is Removing {
            assert(view.state.is_removing(task));
        } else {
            assert(view.state.is_registered(task));
        }
    }
}

} // verus!
