//! What a stop request does to the task it names, and to nothing else.

use tokio::sync::oneshot;
use vstd::prelude::*;

use super::RegistryView;
use super::commands::cancel_requested;
use super::completion::RemovalCompletion;
use super::effects::{Claim, EffectView};
use super::join::{cancellations, claimed_upto, law_sweep_claims_every_registered_actor, won_upto};
use super::listener::command_decision;
use super::protocol::{CancelDecision, CancelReply, RegistryCommand, RemoveReply};
use super::state::{Entry, EntryState, Handle};
use crate::events::{EventKind, EventView};
use crate::identity::TaskId;
use crate::maps::lists_keys;

verus! {

/// Whether the task of an identity waits for a claim, with this handle.
pub open spec fn holds<S>(view: RegistryView<S>, id: TaskId, handle: Handle<S>) -> bool {
    view.state.tasks.contains_key(id.raw) && view.state.tasks[id.raw].state
        == EntryState::Registered(handle)
}

/// Whether the task of an identity was claimed before, with this latch pair.
pub open spec fn leaves<S>(
    view: RegistryView<S>,
    id: TaskId,
    completion: RemovalCompletion,
) -> bool {
    view.state.tasks.contains_key(id.raw) && view.state.tasks[id.raw].state == (
    EntryState::<S>::Removing { completion })
}

/// Whether one task went from registered to removing, and nothing else happened: it keeps its name
/// and its activity, its latch pair stays behind, and it has one removal owner under its name.
pub open spec fn only_claimed<S>(
    before: RegistryView<S>,
    id: TaskId,
    handle: Handle<S>,
    after: RegistryView<S>,
) -> bool {
    let entry = before.state.tasks[id.raw];
    &&& after.state.tasks == before.state.tasks.insert(
        id.raw,
        Entry {
            name: entry.name,
            activity: entry.activity,
            state: EntryState::Removing { completion: handle.completion },
        },
    )
    &&& after.state.by_name == before.state.by_name
    &&& after.pending.counts == before.pending.counts.insert(id.raw, 1)
    &&& after.pending.names == before.pending.names.insert(id.raw, entry.name)
    &&& after.reaper == before.reaper
    &&& after.grace == before.grace
    &&& after.task_defaults == before.task_defaults
    &&& after.limit == before.limit
}

/// Whether a claimed task is told to stop, then its caller is answered, then it is joined with the
/// grace period, in this order, each once, and everything else is a request event about it.
pub open spec fn stops<S>(
    before: RegistryView<S>,
    id: TaskId,
    handle: Handle<S>,
    answer: EffectView<S>,
    effects: Seq<EffectView<S>>,
) -> bool {
    exists|i: int, j: int, k: int|
        #![trigger effects[i], effects[j], effects[k]]
        {
            &&& 0 <= i < j < k < effects.len()
            &&& effects[i] == EffectView::<S>::CancelActor(id)
            &&& effects[j] == answer
            &&& effects[k] == (EffectView::<S>::Join {
                claim: Claim {
                    id,
                    name: before.state.tasks[id.raw].name,
                    handle,
                    completion: handle.completion,
                },
                force_after: Some(before.grace),
            })
            &&& forall|n: int|
                0 <= n < effects.len() && n != i && n != j && n != k ==> requests_stop(
                    #[trigger] effects[n],
                    id,
                )
        }
}

/// Whether an effect publishes a request to stop a task.
pub open spec fn requests_stop<S>(effect: EffectView<S>, id: TaskId) -> bool {
    effect matches EffectView::Publish(event) && event.kind == EventKind::TaskRemoveRequested
        && event.id == Some(id)
}

/// Whether a command is only answered: nothing is stopped, joined, or aborted by it.
pub open spec fn only_answered<S>(
    id: TaskId,
    answer: EffectView<S>,
    effects: Seq<EffectView<S>>,
) -> bool {
    exists|j: int|
        {
            &&& 0 <= j < effects.len()
            &&& #[trigger] effects[j] == answer
            &&& forall|n: int|
                0 <= n < effects.len() && n != j ==> requests_stop(#[trigger] effects[n], id)
        }
}

/// A cancellation of a registered task claims it, tells it to stop, answers that this call made the
/// claim, and joins it. A cancellation of a task that leaves already changes nothing and waits for
/// the same completion. A stranger is answered with nothing at all.
pub proof fn law_a_cancel_stops_the_task_it_claims<S>(
    before: RegistryView<S>,
    id: TaskId,
    reply: oneshot::Sender<CancelReply>,
    after: RegistryView<S>,
    effects: Seq<EffectView<S>>,
)
    requires
        before.valid(),
        command_decision(before, RegistryCommand::Cancel { id, reply }, after, effects),
    ensures
        forall|handle: Handle<S>| #[trigger]
            holds(before, id, handle) ==> {
                let decision = CancelDecision { id, claimed: true, completion: handle.completion };
                &&& only_claimed(before, id, handle, after)
                &&& stops(
                    before,
                    id,
                    handle,
                    EffectView::ReplyCancel(reply, Ok(Some(decision))),
                    effects,
                )
            },
        forall|completion: RemovalCompletion| #[trigger]
            leaves(before, id, completion) ==> {
                let decision = CancelDecision { id, claimed: false, completion };
                &&& after == before
                &&& only_answered(
                    id,
                    EffectView::ReplyCancel(reply, Ok(Some(decision))),
                    effects,
                )
            },
        !before.state.tasks.contains_key(id.raw) ==> after == before && effects == seq![
            EffectView::<S>::ReplyCancel(reply, Ok(None)),
        ],
        before.state.tasks.contains_key(id.raw) ==> (effects[0] matches EffectView::Publish(event)
            && event.reason == Some("manual_cancel"@) && event.task is None),
{
    assert forall|handle: Handle<S>| #[trigger] holds(before, id, handle) implies {
        let decision = CancelDecision { id, claimed: true, completion: handle.completion };
        &&& only_claimed(before, id, handle, after)
        &&& stops(
            before,
            id,
            handle,
            EffectView::ReplyCancel(reply, Ok(Some(decision))),
            effects,
        )
    } by {
        lemma_no_owner_before_a_claim(before, id);
        assert(effects[1] == EffectView::<S>::CancelActor(id));
        assert(effects[2] is ReplyCancel);
        assert(effects[3] is Join);
    }
    assert forall|completion: RemovalCompletion| #[trigger] leaves(before, id, completion) implies {
        let decision = CancelDecision { id, claimed: false, completion };
        &&& after == before
        &&& only_answered(id, EffectView::ReplyCancel(reply, Ok(Some(decision))), effects)
    } by {
        assert(effects[1] is ReplyCancel);
    }
    if !before.state.tasks.contains_key(id.raw) {
        assert(effects =~= seq![EffectView::<S>::ReplyCancel(reply, Ok(None))]);
    }
}

/// A removal of a registered task claims it, tells it to stop, answers that this call made the
/// claim, and joins it. A removal of any other task changes nothing and is answered `false`.
pub proof fn law_a_remove_stops_the_task_it_claims<S>(
    before: RegistryView<S>,
    id: TaskId,
    reply: oneshot::Sender<RemoveReply>,
    after: RegistryView<S>,
    effects: Seq<EffectView<S>>,
)
    requires
        before.valid(),
        command_decision(before, RegistryCommand::Remove { id, reply }, after, effects),
    ensures
        forall|handle: Handle<S>| #[trigger]
            holds(before, id, handle) ==> {
                &&& only_claimed(before, id, handle, after)
                &&& stops(before, id, handle, EffectView::ReplyRemove(reply, Ok(true)), effects)
            },
        !(before.state.tasks.contains_key(id.raw) && before.state.tasks[id.raw].state is Registered)
            ==> after == before && effects == seq![EffectView::<S>::ReplyRemove(reply, Ok(false))],
{
    assert forall|handle: Handle<S>| #[trigger] holds(before, id, handle) implies {
        &&& only_claimed(before, id, handle, after)
        &&& stops(before, id, handle, EffectView::ReplyRemove(reply, Ok(true)), effects)
    } by {
        lemma_no_owner_before_a_claim(before, id);
        assert(effects[0] == EffectView::<S>::CancelActor(id));
        assert(effects[1] is ReplyRemove);
        assert(effects[2] is Join);
    }
    if !(before.state.tasks.contains_key(id.raw)
        && before.state.tasks[id.raw].state is Registered) {
        assert(effects =~= seq![EffectView::<S>::ReplyRemove(reply, Ok(false))]);
    }
}

/// A claim registers the first owner: there was none before.
proof fn lemma_no_owner_before_a_claim<S>(view: RegistryView<S>, id: TaskId)
    requires
        view.valid(),
        view.state.tasks.contains_key(id.raw),
        view.state.tasks[id.raw].state is Registered,
    ensures
        view.pending.owners(id) == 0,
        view.pending.incremented(id).counts == view.pending.counts.insert(id.raw, 1),
{
    assert(view.state.is_registered(id));
}

/// Stopping a task by its name is stopping the identity that holds the name: the registry ends in
/// the same state and the same effects follow one event with name and identity. A name that nobody
/// holds changes nothing, publishes nothing, and stops nobody.
pub proof fn law_a_name_stands_for_its_owner<S>(
    before: RegistryView<S>,
    name: String,
    removal: oneshot::Sender<RemoveReply>,
    cancellation: oneshot::Sender<CancelReply>,
    removed: RegistryView<S>,
    removal_effects: Seq<EffectView<S>>,
    canceled: RegistryView<S>,
    cancel_effects: Seq<EffectView<S>>,
)
    requires
        before.valid(),
        command_decision(
            before,
            RegistryCommand::RemoveByName { name, reply: removal },
            removed,
            removal_effects,
        ),
        command_decision(
            before,
            RegistryCommand::CancelByName { name, reply: cancellation },
            canceled,
            cancel_effects,
        ),
    ensures
        before.state.by_name.contains_key(name@) ==> {
            let id = TaskId { raw: before.state.by_name[name@] };
            &&& removal_effects.len() > 0
            &&& command_decision(
                before,
                RegistryCommand::Remove { id, reply: removal },
                removed,
                removal_effects.skip(1),
            )
            &&& asks_for(removal_effects[0], id, name@, None)
            &&& cancel_effects.len() > 0
            &&& asks_for(cancel_effects[0], id, name@, Some("manual_cancel"@))
            &&& exists|plain: EventView| #[trigger]
                command_decision(
                    before,
                    RegistryCommand::Cancel { id, reply: cancellation },
                    canceled,
                    seq![EffectView::Publish(plain)] + cancel_effects.skip(1),
                )
        },
        !before.state.by_name.contains_key(name@) ==> {
            &&& removed == before
            &&& removal_effects == seq![EffectView::<S>::ReplyRemove(removal, Ok(false))]
            &&& canceled == before
            &&& cancel_effects == seq![EffectView::<S>::ReplyCancel(cancellation, Ok(None))]
        },
{
    if before.state.by_name.contains_key(name@) {
        let id = TaskId { raw: before.state.by_name[name@] };
        assert(before.state.tasks.contains_key(id.raw));
        assert(removal_effects.skip(1) =~= before.remove_effects(id, removal));
        assert(cancel_effects.skip(1) =~= before.cancel_effects(id, cancellation));
        let plain = cancel_requested(id);
        assert(command_decision(
            before,
            RegistryCommand::Cancel { id, reply: cancellation },
            canceled,
            seq![EffectView::Publish(plain)] + cancel_effects.skip(1),
        ));
    }
}

/// Whether an effect publishes the request to stop a task, with its name and this reason.
pub open spec fn asks_for<S>(
    effect: EffectView<S>,
    id: TaskId,
    name: Seq<char>,
    reason: Option<Seq<char>>,
) -> bool {
    effect matches EffectView::Publish(event) && event == (EventView {
        kind: EventKind::TaskRemoveRequested,
        task: Some(name),
        id: Some(id),
        attempt: None,
        duration: None,
        timeout: None,
        reason,
        exit_code: None,
        outcome: None,
        rejection: None,
        dropped: None,
    })
}

/// Shutdown tells every registered task to stop, each by its own identity and once, and tells it to
/// nobody else: not to a task that leaves already, nor to a stranger.
pub proof fn law_shutdown_tells_every_registered_task<S>(view: RegistryView<S>, ids: Seq<u64>)
    requires
        view.valid(),
        lists_keys(ids, view.state.tasks),
    ensures
        ({
            let effects = cancellations(won_upto(view, ids, ids.len() as int));
            &&& forall|id: TaskId|
                #![trigger view.state.tasks[id.raw]]
                view.state.tasks.contains_key(id.raw) && view.state.tasks[id.raw].state
                    is Registered ==> effects.contains(EffectView::CancelActor(id))
            &&& forall|i: int|
                0 <= i < effects.len() ==> {
                    &&& #[trigger] effects[i] is CancelActor
                    &&& view.state.tasks.contains_key(effects[i]->CancelActor_0.raw)
                    &&& view.state.tasks[effects[i]->CancelActor_0.raw].state is Registered
                }
            &&& forall|i: int, j: int|
                #![trigger effects[i], effects[j]]
                0 <= i < j < effects.len() ==> effects[i] != effects[j]
        }),
{
    let n = ids.len() as int;
    let won = won_upto(view, ids, n);
    let effects = cancellations(won);
    law_sweep_claims_every_registered_actor(view, ids);
    assert forall|id: TaskId|
        #![trigger view.state.tasks[id.raw]]
        view.state.tasks.contains_key(id.raw) && view.state.tasks[id.raw].state
            is Registered implies effects.contains(EffectView::CancelActor(id)) by {
        assert(view.state.is_registered(id));
        let k = choose|k: int| 0 <= k < won.len() && (#[trigger] won[k]).id == id;
        assert(effects[k] == EffectView::<S>::CancelActor(id));
    }
    assert forall|i: int| 0 <= i < effects.len() implies {
        &&& #[trigger] effects[i] is CancelActor
        &&& view.state.tasks.contains_key(effects[i]->CancelActor_0.raw)
        &&& view.state.tasks[effects[i]->CancelActor_0.raw].state is Registered
    } by {
        assert(view.claim(won[i].id) == Some(won[i]));
    }
    assert forall|i: int, j: int|
        #![trigger effects[i], effects[j]]
        0 <= i < j < effects.len() implies effects[i] != effects[j] by {
        assert(won[i].id != won[j].id);
    }
}

/// The first `n` claims of shutdown, entry by entry.
proof fn lemma_swept_upto<S>(view: RegistryView<S>, ids: Seq<u64>, n: int)
    requires
        0 <= n <= ids.len(),
        ids.no_duplicates(),
        forall|i: int| 0 <= i < ids.len() ==> view.state.tasks.contains_key(#[trigger] ids[i]),
    ensures
        ({
            let after = claimed_upto(view, ids, n);
            &&& after.state.tasks.dom() == view.state.tasks.dom()
            &&& after.state.by_name == view.state.by_name
            &&& after.reaper == view.reaper
            &&& after.grace == view.grace
            &&& after.task_defaults == view.task_defaults
            &&& after.limit == view.limit
            &&& forall|i: int|
                0 <= i < ids.len() ==> #[trigger] after.state.tasks[ids[i]] == (if i < n {
                    swept(view.state.tasks[ids[i]])
                } else {
                    view.state.tasks[ids[i]]
                })
        }),
    decreases n,
{
    if n > 0 {
        lemma_swept_upto(view, ids, n - 1);
        let before = claimed_upto(view, ids, n - 1);
        let after = claimed_upto(view, ids, n);
        assert(before.state.tasks.contains_key(ids[n - 1]));
        assert(before.state.tasks[ids[n - 1]] == view.state.tasks[ids[n - 1]]);
        assert(after.state.tasks.dom() =~= view.state.tasks.dom());
        assert forall|i: int| 0 <= i < ids.len() implies #[trigger] after.state.tasks[ids[i]] == (
        if i < n {
            swept(view.state.tasks[ids[i]])
        } else {
            view.state.tasks[ids[i]]
        }) by {
            assert(before.state.tasks[ids[i]] == (if i < n - 1 {
                swept(view.state.tasks[ids[i]])
            } else {
                view.state.tasks[ids[i]]
            }));
            if i != n - 1 {
                assert(ids[i] != ids[n - 1]);
            }
        }
    }
}

/// Entry after shutdown claimed it, or found it claimed.
pub open spec fn swept<S>(entry: Entry<S>) -> Entry<S> {
    Entry {
        name: entry.name,
        activity: entry.activity,
        state: EntryState::Removing {
            completion: match entry.state {
                EntryState::Registered(handle) => handle.completion,
                EntryState::Removing { completion } => completion,
            },
        },
    }
}

/// Shutdown takes the actors and nothing else: every member stays, under its name, with its
/// activity and its latch pair, and is on its way out.
pub proof fn law_shutdown_keeps_names_and_latches<S>(view: RegistryView<S>, ids: Seq<u64>)
    requires
        view.valid(),
        lists_keys(ids, view.state.tasks),
    ensures
        ({
            let after = claimed_upto(view, ids, ids.len() as int);
            &&& after.state.tasks.dom() == view.state.tasks.dom()
            &&& after.state.by_name == view.state.by_name
            &&& after.reaper == view.reaper
            &&& forall|id: u64| #[trigger]
                view.state.tasks.contains_key(id) ==> after.state.tasks[id] == swept(
                    view.state.tasks[id],
                )
        }),
{
    assert forall|i: int| 0 <= i < ids.len() implies view.state.tasks.contains_key(
        #[trigger] ids[i],
    ) by {
        assert(ids.to_set().contains(ids[i]));
    }
    lemma_swept_upto(view, ids, ids.len() as int);
    let after = claimed_upto(view, ids, ids.len() as int);
    assert forall|id: u64| #[trigger] view.state.tasks.contains_key(id) implies
        after.state.tasks[id] == swept(view.state.tasks[id]) by {
        assert(ids.to_set().contains(id));
        let i = choose|i: int| 0 <= i < ids.len() && ids[i] == id;
        assert(after.state.tasks[ids[i]] == swept(view.state.tasks[ids[i]]));
    }
}

} // verus!
