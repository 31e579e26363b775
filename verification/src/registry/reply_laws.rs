//! What every command can rely on: one answer, and no task body before it.

use vstd::prelude::*;

use super::RegistryView;
use super::actor::ScheduledActor;
use super::batch::{
    added_events, conflict_events, conflict_flags, first_conflict, limit_events, prepared_batch,
    schedules, submissions,
};
use super::effects::EffectView;
use super::listener::command_decision;
use super::protocol::RegistryCommand;
use super::state::Entry;

verus! {

/// Whether an effect answers a command.
pub open spec fn is_reply<S>(effect: EffectView<S>) -> bool {
    effect is ReplyAdd || effect is ReplyRemove || effect is ReplyCancel
}

/// Number of answers in a list of effects.
pub open spec fn replies<S>(effects: Seq<EffectView<S>>) -> nat
    decreases effects.len(),
{
    if effects.len() == 0 {
        0
    } else {
        replies(effects.drop_last()) + if is_reply(effects.last()) {
            1nat
        } else {
            0nat
        }
    }
}

/// A list with one answer, at the given place, has one answer.
proof fn lemma_one_reply<S>(effects: Seq<EffectView<S>>, at: int)
    requires
        0 <= at < effects.len(),
        is_reply(effects[at]),
        forall|i: int| 0 <= i < effects.len() && i != at ==> !is_reply(#[trigger] effects[i]),
    ensures
        replies(effects) == 1,
    decreases effects.len(),
{
    let rest = effects.drop_last();
    assert forall|i: int| 0 <= i < rest.len() implies rest[i] == effects[i] by {}
    if at == effects.len() - 1 {
        lemma_no_reply(rest);
    } else {
        lemma_one_reply(rest, at);
        assert(!is_reply(effects[effects.len() - 1]));
    }
}

/// A list without answers has none.
proof fn lemma_no_reply<S>(effects: Seq<EffectView<S>>)
    requires
        forall|i: int| 0 <= i < effects.len() ==> !is_reply(#[trigger] effects[i]),
    ensures
        replies(effects) == 0,
    decreases effects.len(),
{
    if effects.len() > 0 {
        let rest = effects.drop_last();
        assert forall|i: int| 0 <= i < rest.len() implies rest[i] == effects[i] by {}
        lemma_no_reply(rest);
        assert(!is_reply(effects[effects.len() - 1]));
    }
}

/// Place of the answer to a batch: right after its events.
proof fn lemma_batch_reply<S>(
    before: RegistryView<S>,
    command: RegistryCommand<S>,
    after: RegistryView<S>,
    effects: Seq<EffectView<S>>,
)
    requires
        command is AddBatch,
        command_decision(before, command, after, effects),
    ensures
        ({
            let n = command->AddBatch_items@.len() as int;
            &&& n < effects.len()
            &&& effects[n] is ReplyAdd
            &&& forall|i: int| 0 <= i < n ==> (#[trigger] effects[i]) is Publish
            &&& forall|i: int|
                n < i < effects.len() ==> !is_reply(#[trigger] effects[i])
            &&& effects[n]->ReplyAdd_1 is Err ==> forall|i: int|
                n < i < effects.len() ==> (#[trigger] effects[i]) is Submit
        }),
{
    let items = command->AddBatch_items@;
    let n = items.len() as int;
    match first_conflict(before, items) {
        Some(_) => {
            let events = conflict_events(items, conflict_flags(before, items));
            assert forall|i: int| 0 <= i < n implies (#[trigger] effects[i]) is Publish by {
                assert(effects[i] == events[i]);
            }
            assert forall|i: int| n < i < effects.len() implies (#[trigger] effects[i]) is Submit by {
                assert(effects[i] == submissions(items)[i - n - 1]);
            }
        },
        None => match before.limit_exceeded(items.len()) {
            Some(limit) => {
                let events = limit_events(
                    items,
                    before.state.tasks.len() as nat,
                    limit as nat,
                );
                assert forall|i: int| 0 <= i < n implies (#[trigger] effects[i]) is Publish by {
                    assert(effects[i] == events[i]);
                }
                assert forall|i: int| n < i < effects.len() implies (
                #[trigger] effects[i]) is Submit by {
                    assert(effects[i] == submissions(items)[i - n - 1]);
                }
            },
            None => {
                let events = added_events(items);
                let (entries, actors) = choose|
                    entries: Seq<Entry<S>>,
                    actors: Seq<ScheduledActor<S>>,
                |
                    #[trigger] prepared_batch(items, entries, actors, before.task_defaults)
                        && effects == (added_events(items).push(
                        EffectView::ReplyAdd(command->AddBatch_reply, Ok(())),
                    ) + schedules(actors)).push(EffectView::OpenStartGate);
                assert forall|i: int| 0 <= i < n implies (#[trigger] effects[i]) is Publish by {
                    assert(effects[i] == events[i]);
                }
                assert forall|i: int| n < i < effects.len() implies !is_reply(
                    #[trigger] effects[i],
                ) by {
                    if i < effects.len() - 1 {
                        assert(effects[i] == schedules(actors)[i - n - 1]);
                    }
                }
            },
        },
    }
}

/// Every command is answered exactly once, whatever it asks for and whatever is decided.
pub proof fn law_every_command_is_answered_once<S>(
    before: RegistryView<S>,
    command: RegistryCommand<S>,
    after: RegistryView<S>,
    effects: Seq<EffectView<S>>,
)
    requires
        command_decision(before, command, after, effects),
    ensures
        replies(effects) == 1,
{
    match command {
        RegistryCommand::Add { name, .. } => {
            if before.refusal(name@) is Some {
                lemma_one_reply(effects, 0);
            } else {
                lemma_one_reply(effects, 1);
            }
        },
        RegistryCommand::AddBatch { items, .. } => {
            lemma_batch_reply(before, command, after, effects);
            lemma_one_reply(effects, items@.len() as int);
        },
        RegistryCommand::Remove { id, .. } => {
            lemma_one_reply(effects, if before.claim(id) is Some { 1 } else { 0 });
        },
        RegistryCommand::RemoveByName { name, .. } => match before.state.owner_of(name@) {
            Some(id) => {
                lemma_one_reply(effects, if before.claim(id) is Some { 2 } else { 1 });
            },
            None => {
                lemma_one_reply(effects, 0);
            },
        },
        RegistryCommand::Cancel { id, .. } => {
            if before.state.contains(id) {
                lemma_one_reply(effects, if before.claim(id) is Some { 2 } else { 1 });
            } else {
                lemma_one_reply(effects, 0);
            }
        },
        RegistryCommand::CancelByName { name, .. } => match before.state.owner_of(name@) {
            Some(id) => {
                lemma_one_reply(effects, if before.claim(id) is Some { 2 } else { 1 });
            },
            None => {
                lemma_one_reply(effects, 0);
            },
        },
    }
}

/// No task body starts ahead of its decision: an actor is scheduled only after its command was
/// answered with success, and a refused command schedules nothing.
pub proof fn law_no_body_starts_before_its_decision<S>(
    before: RegistryView<S>,
    command: RegistryCommand<S>,
    after: RegistryView<S>,
    effects: Seq<EffectView<S>>,
    i: int,
)
    requires
        command_decision(before, command, after, effects),
        0 <= i < effects.len(),
        effects[i] is Schedule || effects[i] is OpenStartGate,
    ensures
        exists|j: int|
            0 <= j < i && #[trigger] effects[j] is ReplyAdd && effects[j]->ReplyAdd_1 is Ok,
{
    match command {
        RegistryCommand::Add { name, .. } => {
            assert(before.refusal(name@) is None);
            assert(effects[1] is ReplyAdd);
        },
        RegistryCommand::AddBatch { items, .. } => {
            let n = items@.len() as int;
            lemma_batch_reply(before, command, after, effects);
            if i < n {
                assert(effects[i] is Publish);
            }
            if effects[n]->ReplyAdd_1 is Err && i > n {
                assert(effects[i] is Submit);
            }
            assert(effects[n] is ReplyAdd);
        },
        _ => {
            assert(false);
        },
    }
}

} // verus!
