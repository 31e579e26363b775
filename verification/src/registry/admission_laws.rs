//! When a task is let in, and what follows for everybody who asked.

use tokio::sync::oneshot;
use vstd::prelude::*;

use super::RegistryView;
use super::actor::{AttemptReservation, ScheduledActor};
use super::admission::{acceptance_effects, chosen_latch, prepared_pair, REGISTERED_TASKS};
use super::batch::{
    added_events, conflict_events, conflict_flags, conflicts, first_conflict, fresh_batch,
    indexed_upto, lemma_batch_members, limit_events, prepared_batch, prepared_item, repeats,
    schedules, submissions,
};
use super::completion::{OutcomeTx, RemovalCompletion};
use super::effects::EffectView;
use super::listener::command_decision;
use super::protocol::{AddBatchItem, AddReply, OwnedTask, RegistryCommand};
use super::state::{Entry, EntryState, InnerView};
use crate::channel::connected;
use crate::error::RuntimeErrorView;
use crate::events::{EventKind, RejectionKind};
use crate::identity::TaskId;
use crate::outcome::TaskOutcomeView;
use crate::search::lemma_first_where;
use crate::text::decimal;

verus! {

/// Whether somebody holds a name: a member in either phase, or an attempt that outlived its
/// removal.
pub open spec fn held<S>(view: RegistryView<S>, name: Seq<char>) -> bool {
    view.state.by_name.contains_key(name) || exists|i: int|
        0 <= i < view.reaper.activities.len() && (#[trigger] view.reaper.activities[i]).name@
            == name
}

/// Whether that many more tasks fit, counting members and attempts that outlived their removal.
pub open spec fn fits<S>(view: RegistryView<S>, more: nat) -> bool {
    view.limit matches Some(limit) ==> view.state.tasks.len() + view.reaper.records.len() + more
        <= limit
}

/// Whether an effect publishes that a task was not let in, for this reason.
pub open spec fn publishes_refusal<S>(
    effect: EffectView<S>,
    id: TaskId,
    name: Seq<char>,
    kind: RejectionKind,
) -> bool {
    effect matches EffectView::Publish(event) && event.kind == EventKind::TaskAddFailed && event.id
        == Some(id) && event.task == Some(name) && event.rejection == Some(kind)
}

/// Whether an effect publishes that a task was let in.
pub open spec fn publishes_admission<S>(
    effect: EffectView<S>,
    id: TaskId,
    name: Seq<char>,
) -> bool {
    effect matches EffectView::Publish(event) && event.kind == EventKind::TaskAdded && event.id
        == Some(id) && event.task == Some(name) && event.rejection is None && event.reason is None
}

/// Whether a single add is refused with an error: the caller is told, the watcher is offered the
/// refusal with the user values, and the event tells the same reason. Nothing else happens.
pub open spec fn turned_away<S>(
    id: TaskId,
    name: Seq<char>,
    owned: OwnedTask<S>,
    done: Option<OutcomeTx<S>>,
    reply: oneshot::Sender<AddReply>,
    kind: RejectionKind,
    error: RuntimeErrorView,
    effects: Seq<EffectView<S>>,
) -> bool {
    &&& effects.len() == 3
    &&& effects[0] == EffectView::<S>::ReplyAdd(reply, Err(error))
    &&& effects[1] matches EffectView::Settle { done: watcher, outcome, cleanup } && {
        &&& watcher == done
        &&& cleanup == owned.cleanup
        &&& outcome matches TaskOutcomeView::Rejected { kind: told, reason } && told == kind
            && effects[2]->Publish_0.reason == Some(reason)
    }
    &&& publishes_refusal(effects[2], id, name, kind)
}

/// Whether an entry and an actor are one newly admitted task: unclaimed, idle, with the caller's
/// sender, latches, and user values, and with an actor whose result reaches the entry.
pub open spec fn newly_admitted<S>(
    entry: Entry<S>,
    actor: ScheduledActor<S>,
    id: TaskId,
    name: String,
    owned: OwnedTask<S>,
    done: Option<OutcomeTx<S>>,
    completion: RemovalCompletion,
) -> bool {
    &&& entry.name == name
    &&& !entry.activity
    &&& actor.id == id
    &&& entry.state matches EntryState::Registered(handle) && {
        &&& handle.done == done
        &&& handle.completion == completion
        &&& handle.cleanup == owned.cleanup
        &&& handle.join.join is None
        &&& handle.join.join_slot is None
        &&& handle.join.ready is None
        &&& handle.join.logical is None
        &&& handle.join.reservation == Some(
            AttemptReservation { id, name, physical_release: completion },
        )
        &&& handle.join.result matches Some(receiver) && connected(actor.result, receiver)
    }
}

/// One task is let in exactly when nobody holds its name and it fits under the limit. A refused one
/// changes nothing. An accepted one is found by identity and by name, nobody else is touched, and
/// it starts only after event and answer.
pub proof fn law_one_task_is_let_in_by_name_and_room<S>(
    before: RegistryView<S>,
    id: TaskId,
    name: String,
    owned: OwnedTask<S>,
    done: Option<OutcomeTx<S>>,
    completion: Option<RemovalCompletion>,
    fresh: RemovalCompletion,
    reply: oneshot::Sender<AddReply>,
    after: RegistryView<S>,
    effects: Seq<EffectView<S>>,
)
    requires
        command_decision(
            before,
            RegistryCommand::Add { id, name, owned, outcome: done, completion, fresh, reply },
            after,
            effects,
        ),
    ensures
        held(before, name@) ==> after == before && turned_away(
            id,
            name@,
            owned,
            done,
            reply,
            RejectionKind::AlreadyExists,
            RuntimeErrorView::TaskAlreadyExists { name: name@ },
            effects,
        ) && effects[2]->Publish_0.reason == Some("already_exists"@),
        !held(before, name@) && !fits(before, 1) ==> after == before && turned_away(
            id,
            name@,
            owned,
            done,
            reply,
            RejectionKind::ResourceLimit,
            RuntimeErrorView::ResourceLimitReached {
                resource: "registered_tasks"@,
                limit: before.limit->0,
            },
            effects,
        ) && effects[2]->Publish_0.reason == Some(
            "registered_task_limit"@ + ": "@ + decimal(before.limit->0 as nat),
        ),
        !held(before, name@) && fits(before, 1) ==> exists|
            entry: Entry<S>,
            actor: ScheduledActor<S>,
            latch: RemovalCompletion,
        |
            {
                &&& latch == (if completion is Some {
                    completion->0
                } else {
                    fresh
                })
                &&& #[trigger] newly_admitted(entry, actor, id, name, owned, done, latch)
                &&& actor.params == owned.spec.resolved(before.task_defaults)
                &&& after.state.tasks == before.state.tasks.insert(id.raw, entry)
                &&& after.state.by_name == before.state.by_name.insert(name@, id.raw)
                &&& after.pending == before.pending
                &&& after.reaper == before.reaper
                &&& after.limit == before.limit
                &&& effects.len() == 4
                &&& publishes_admission(effects[0], id, name@)
                &&& effects[1] == EffectView::<S>::ReplyAdd(reply, Ok(()))
                &&& effects[2] == EffectView::<S>::Schedule(actor)
                &&& effects[3] is OpenStartGate
            },
{
    lemma_held(before, name@);
    assert("registered_tasks"@ == REGISTERED_TASKS@);
    if !held(before, name@) && fits(before, 1) {
        let latch = match completion {
            Some(completion) => completion,
            None => fresh,
        };
        let (entry, actor) = choose|entry: Entry<S>, actor: ScheduledActor<S>|
            {
                &&& #[trigger] prepared_pair(
                    entry,
                    actor,
                    id,
                    name,
                    owned,
                    done,
                    chosen_latch(completion, fresh),
                    before.task_defaults,
                )
                &&& after == (RegistryView {
                    state: before.state.indexed(id, entry),
                    ..before
                })
                &&& effects == acceptance_effects(id, name@, actor, reply)
            };
        assert(newly_admitted(entry, actor, id, name, owned, done, latch));
    }
}

/// What admission calls taken is what somebody holds.
proof fn lemma_held<S>(view: RegistryView<S>, name: Seq<char>)
    ensures
        view.name_taken(name) <==> held(view, name),
{
}

/// Whether an item cannot have its name: somebody holds it, or an earlier item asks for it too.
pub open spec fn clashes<S>(view: RegistryView<S>, items: Seq<AddBatchItem<S>>, i: int) -> bool {
    held(view, items[i].name@) || exists|j: int|
        0 <= j < i && (#[trigger] items[j]).name@ == items[i].name@
}

/// Admission looks for exactly these clashes, and finds the first.
proof fn lemma_clashes<S>(view: RegistryView<S>, items: Seq<AddBatchItem<S>>)
    ensures
        forall|i: int| 0 <= i < items.len() ==> (#[trigger] conflicts(view, items, i) <==> clashes(
            view,
            items,
            i,
        )),
        match first_conflict(view, items) {
            Some(first) => {
                &&& 0 <= first < items.len()
                &&& clashes(view, items, first)
                &&& forall|j: int| 0 <= j < first ==> !#[trigger] clashes(view, items, j)
            },
            None => forall|j: int| 0 <= j < items.len() ==> !#[trigger] clashes(view, items, j),
        },
{
    let flags = conflict_flags(view, items);
    lemma_first_where(flags, |conflict: bool| conflict);
    assert forall|i: int| 0 <= i < items.len() implies (#[trigger] conflicts(view, items, i)
        <==> clashes(view, items, i)) by {
        lemma_held(view, items[i].name@);
        assert(repeats(items, i) <==> exists|j: int|
            0 <= j < i && (#[trigger] items[j]).name@ == items[i].name@);
    }
    match first_conflict(view, items) {
        Some(first) => {
            assert(flags[first]);
            assert(conflicts(view, items, first));
            assert forall|j: int| 0 <= j < first implies !#[trigger] clashes(view, items, j) by {
                assert(!flags[j]);
                assert(!conflicts(view, items, j));
            }
        },
        None => {
            assert forall|j: int| 0 <= j < items.len() implies !#[trigger] clashes(
                view,
                items,
                j,
            ) by {
                assert(!flags[j]);
                assert(!conflicts(view, items, j));
            }
        },
    }
}

/// Whether a batch is refused with an error: one event per item, then the one answer, then the user
/// values of every item, in item order.
pub open spec fn batch_turned_away<S>(
    items: Seq<AddBatchItem<S>>,
    reply: oneshot::Sender<AddReply>,
    error: RuntimeErrorView,
    effects: Seq<EffectView<S>>,
) -> bool {
    let n = items.len() as int;
    &&& effects.len() == 2 * n + 1
    &&& effects[n] == EffectView::<S>::ReplyAdd(reply, Err(error))
    &&& forall|i: int|
        0 <= i < n ==> #[trigger] effects[n + 1 + i] == EffectView::<S>::Submit(
            items[i].owned.cleanup,
        )
}

/// A batch is let in exactly when no item clashes and all of it fits. A refused batch changes
/// nothing: for a clash the first clashing name is told, items with a clash are told apart from
/// those that only share the batch, and every bundle is given up once.
pub proof fn law_a_refused_batch_tells_everybody_why<S>(
    before: RegistryView<S>,
    items: Vec<AddBatchItem<S>>,
    reply: oneshot::Sender<AddReply>,
    after: RegistryView<S>,
    effects: Seq<EffectView<S>>,
)
    requires
        command_decision(before, RegistryCommand::AddBatch { items, reply }, after, effects),
    ensures
        forall|first: int|
            0 <= first < items@.len() && #[trigger] clashes(before, items@, first) && (forall|
                j: int,
            |
                0 <= j < first ==> !#[trigger] clashes(before, items@, j)) ==> {
                &&& after == before
                &&& batch_turned_away(
                    items@,
                    reply,
                    RuntimeErrorView::TaskAlreadyExists { name: items@[first].name@ },
                    effects,
                )
                &&& forall|i: int|
                    0 <= i < items@.len() ==> publishes_refusal(
                        #[trigger] effects[i],
                        items@[i].id,
                        items@[i].name@,
                        if clashes(before, items@, i) {
                            RejectionKind::AlreadyExists
                        } else {
                            RejectionKind::BatchRejected
                        },
                    )
            },
        (forall|j: int| 0 <= j < items@.len() ==> !#[trigger] clashes(before, items@, j)) && !fits(
            before,
            items@.len(),
        ) ==> {
            &&& after == before
            &&& batch_turned_away(
                items@,
                reply,
                RuntimeErrorView::ResourceLimitReached {
                    resource: "registered_tasks"@,
                    limit: before.limit->0,
                },
                effects,
            )
            &&& forall|i: int|
                0 <= i < items@.len() ==> publishes_refusal(
                    #[trigger] effects[i],
                    items@[i].id,
                    items@[i].name@,
                    RejectionKind::ResourceLimit,
                ) && effects[i]->Publish_0.reason == Some(
                    "registered_task_limit"@ + ": "@ + decimal(before.state.tasks.len() as nat)
                        + "/"@ + decimal(before.limit->0 as nat),
                )
        },
{
    let n = items@.len() as int;
    lemma_clashes(before, items@);
    assert("registered_tasks"@ == REGISTERED_TASKS@);
    let flags = conflict_flags(before, items@);
    let given_up = submissions(items@);
    assert forall|first: int|
        0 <= first < items@.len() && #[trigger] clashes(before, items@, first) && (forall|j: int|
            0 <= j < first ==> !#[trigger] clashes(before, items@, j)) implies {
        &&& after == before
        &&& batch_turned_away(
            items@,
            reply,
            RuntimeErrorView::TaskAlreadyExists { name: items@[first].name@ },
            effects,
        )
        &&& forall|i: int|
            0 <= i < items@.len() ==> publishes_refusal(
                #[trigger] effects[i],
                items@[i].id,
                items@[i].name@,
                if clashes(before, items@, i) {
                    RejectionKind::AlreadyExists
                } else {
                    RejectionKind::BatchRejected
                },
            )
    } by {
        let found = first_conflict(before, items@)->0;
        assert(found == first) by {
            if found < first {
                assert(clashes(before, items@, found));
            }
            if first < found {
                assert(clashes(before, items@, first));
            }
        }
        let events = conflict_events(items@, flags);
        assert forall|i: int| 0 <= i < n implies publishes_refusal(
            #[trigger] effects[i],
            items@[i].id,
            items@[i].name@,
            if clashes(before, items@, i) {
                RejectionKind::AlreadyExists
            } else {
                RejectionKind::BatchRejected
            },
        ) by {
            assert(effects[i] == events[i]);
            assert(flags[i] == conflicts(before, items@, i));
        }
        assert forall|i: int| 0 <= i < n implies #[trigger] effects[n + 1 + i] == EffectView::<
            S,
        >::Submit(items@[i].owned.cleanup) by {
            assert(effects[n + 1 + i] == given_up[i]);
        }
    }
    if (forall|j: int| 0 <= j < items@.len() ==> !#[trigger] clashes(before, items@, j)) && !fits(
        before,
        items@.len(),
    ) {
        assert(first_conflict(before, items@) is None);
        let limit = before.limit->0;
        let events = limit_events(items@, before.state.tasks.len() as nat, limit as nat);
        assert forall|i: int| 0 <= i < n implies publishes_refusal(
            #[trigger] effects[i],
            items@[i].id,
            items@[i].name@,
            RejectionKind::ResourceLimit,
        ) && effects[i]->Publish_0.reason == Some(
            "registered_task_limit"@ + ": "@ + decimal(before.state.tasks.len() as nat) + "/"@
                + decimal(limit as nat),
        ) by {
            assert(effects[i] == events[i]);
        }
        assert forall|i: int| 0 <= i < n implies #[trigger] effects[n + 1 + i] == EffectView::<
            S,
        >::Submit(items@[i].owned.cleanup) by {
            assert(effects[n + 1 + i] == given_up[i]);
        }
    }
}

/// Where the first `n` entries of a batch are found.
proof fn lemma_indexed_entries<S>(
    state: InnerView<S>,
    items: Seq<AddBatchItem<S>>,
    entries: Seq<Entry<S>>,
    n: int,
)
    requires
        0 <= n <= items.len(),
        n <= entries.len(),
        forall|i: int, j: int|
            #![trigger items[i], items[j]]
            0 <= i < j < items.len() ==> items[i].id != items[j].id && items[i].name@
                != items[j].name@,
        forall|i: int| 0 <= i < n ==> (#[trigger] entries[i]).name == items[i].name,
    ensures
        forall|i: int|
            0 <= i < n ==> {
                &&& indexed_upto(state, items, entries, n).tasks[(#[trigger] items[i]).id.raw]
                    == entries[i]
                &&& indexed_upto(state, items, entries, n).by_name[items[i].name@]
                    == items[i].id.raw
            },
        forall|id: u64|
            (forall|i: int| 0 <= i < n ==> (#[trigger] items[i]).id.raw != id) ==> #[trigger]
                indexed_upto(state, items, entries, n).tasks[id] == state.tasks[id],
    decreases n,
{
    if n > 0 {
        lemma_indexed_entries(state, items, entries, n - 1);
        let before = indexed_upto(state, items, entries, n - 1);
        let after = indexed_upto(state, items, entries, n);
        assert(entries[n - 1].name == items[n - 1].name);
        assert forall|i: int| 0 <= i < n implies {
            &&& after.tasks[(#[trigger] items[i]).id.raw] == entries[i]
            &&& after.by_name[items[i].name@] == items[i].id.raw
        } by {
            if i < n - 1 {
                assert(items[i].id != items[n - 1].id);
                assert(items[i].id.raw != items[n - 1].id.raw);
            }
        }
        assert forall|id: u64|
            (forall|i: int| 0 <= i < n ==> (#[trigger] items[i]).id.raw != id) implies
            #[trigger] after.tasks[id] == state.tasks[id] by {
            assert(items[n - 1].id.raw != id);
            assert(before.tasks[id] == state.tasks[id]);
        }
    }
}

/// An accepted batch lets in every item: each is found by identity and by name as a new task,
/// members from before stay as they were, and no body starts before every event and the one answer.
pub proof fn law_an_accepted_batch_lets_everybody_in<S>(
    before: RegistryView<S>,
    items: Vec<AddBatchItem<S>>,
    reply: oneshot::Sender<AddReply>,
    after: RegistryView<S>,
    effects: Seq<EffectView<S>>,
)
    requires
        fresh_batch(before, items@),
        command_decision(before, RegistryCommand::AddBatch { items, reply }, after, effects),
        forall|j: int| 0 <= j < items@.len() ==> !#[trigger] clashes(before, items@, j),
        fits(before, items@.len()),
    ensures
        ({
            let n = items@.len() as int;
            &&& effects.len() == 2 * n + 2
            &&& effects[n] == EffectView::<S>::ReplyAdd(reply, Ok(()))
            &&& effects[2 * n + 1] is OpenStartGate
            &&& forall|i: int|
                0 <= i < n ==> publishes_admission(
                    #[trigger] effects[i],
                    items@[i].id,
                    items@[i].name@,
                )
            &&& forall|i: int|
                0 <= i < n ==> {
                    let item = #[trigger] items@[i];
                    &&& after.state.tasks.contains_key(item.id.raw)
                    &&& after.state.by_name.contains_key(item.name@)
                    &&& after.state.by_name[item.name@] == item.id.raw
                    &&& effects[n + 1 + i] matches EffectView::Schedule(actor) && {
                        &&& newly_admitted(
                            after.state.tasks[item.id.raw],
                            actor,
                            item.id,
                            item.name,
                            item.owned,
                            None,
                            item.completion,
                        )
                        &&& actor.params == item.owned.spec.resolved(before.task_defaults)
                    }
                }
            &&& forall|id: u64| #[trigger]
                before.state.tasks.contains_key(id) ==> after.state.tasks.contains_key(id)
                    && after.state.tasks[id] == before.state.tasks[id]
            &&& after.pending == before.pending
            &&& after.reaper == before.reaper
        }),
{
    let n = items@.len() as int;
    lemma_clashes(before, items@);
    assert(first_conflict(before, items@) is None) by {
        if first_conflict(before, items@) is Some {
            assert(clashes(before, items@, first_conflict(before, items@)->0));
        }
    }
    let (entries, actors) = choose|entries: Seq<Entry<S>>, actors: Seq<ScheduledActor<S>>|
        {
            &&& #[trigger] prepared_batch(items@, entries, actors, before.task_defaults)
            &&& after == (RegistryView {
                state: indexed_upto(before.state, items@, entries, n),
                ..before
            })
            &&& effects == (added_events(items@).push(EffectView::ReplyAdd(reply, Ok(())))
                + schedules(actors)).push(EffectView::OpenStartGate)
        };
    assert forall|i: int| 0 <= i < n implies (#[trigger] entries[i]).name == items@[i].name by {
        assert(prepared_item(items@[i], entries[i], actors[i], before.task_defaults));
    }
    assert forall|i: int, j: int|
        #![trigger items@[i], items@[j]]
        0 <= i < j < n implies items@[i].id != items@[j].id && items@[i].name@ != items@[j].name@ by {
        assert(!clashes(before, items@, j));
    }
    lemma_batch_members(before.state, items@, entries, n);
    lemma_indexed_entries(before.state, items@, entries, n);
    assert forall|i: int| 0 <= i < n implies publishes_admission(
        #[trigger] effects[i],
        items@[i].id,
        items@[i].name@,
    ) by {
        assert(effects[i] == added_events(items@)[i]);
    }
    assert forall|i: int| 0 <= i < n implies {
        let item = #[trigger] items@[i];
        &&& after.state.tasks.contains_key(item.id.raw)
        &&& after.state.by_name.contains_key(item.name@)
        &&& after.state.by_name[item.name@] == item.id.raw
        &&& effects[n + 1 + i] matches EffectView::Schedule(actor) && {
            &&& newly_admitted(
                after.state.tasks[item.id.raw],
                actor,
                item.id,
                item.name,
                item.owned,
                None,
                item.completion,
            )
            &&& actor.params == item.owned.spec.resolved(before.task_defaults)
        }
    } by {
        assert(effects[n + 1 + i] == schedules(actors)[i]);
        assert(prepared_item(items@[i], entries[i], actors[i], before.task_defaults));
    }
    assert forall|id: u64| #[trigger] before.state.tasks.contains_key(id) implies {
        &&& after.state.tasks.contains_key(id)
        &&& after.state.tasks[id] == before.state.tasks[id]
    } by {
        assert forall|i: int| 0 <= i < n implies (#[trigger] items@[i]).id.raw != id by {
            assert(before.is_fresh(items@[i].id));
        }
    }
}

} // verus!
