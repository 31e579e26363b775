//! What each registry operation does with the registry it is called on.

use tokio::sync::oneshot;
use vstd::prelude::*;

use super::actor::{
    loaded, noted, AbortPlan, ActorHandle, ActorRegistration, ActorTask, AttemptReservation, Joined,
    ScheduledActor,
};
use super::admission::{
    acceptance_effects, attach_undelivered, chosen_latch, deliver_or_attach_rejection, kept_with,
    offered, prepared_pair,
};
use super::admission_laws::{fits, held};
use super::command_laws::{
    holds, law_shutdown_keeps_names_and_latches, law_shutdown_tells_every_registered_task,
    only_claimed, swept,
};
use super::completion::{OutcomeTx, RemovalCompletion};
use super::effects::{effect_views, Claim, Effect, EffectView};
use super::join::{
    cancellations, claimed_upto, law_sweep_claims_every_registered_actor, won_upto,
    CompletionAction, ResolvedJoin, Sweep,
};
use super::listener::command_decision;
use super::pending::{law_drained_means_no_owner, PendingJoins};
use super::protocol::{
    AddBatchItem, AddReply, CancelReply, OwnedTask, RegistryCommand, RemoveReply,
};
use super::reaper::{AttemptReaper, TerminalReleases};
use super::state::{Entry, EntryState, Handle};
use super::terminal::{
    AnnouncedRemoval, Commit, JoinCompletion, PendingTerminalReport, RemovalReport,
    TerminalFinalizer,
};
use super::terminal_laws::law_an_ended_task_has_its_result;
use super::{Registry, RegistryView};
use crate::channel::{connected, sent_leaving, Probe};
use crate::deferred_drop::DropBundle;
use crate::identity::TaskId;
use crate::maps::lists_keys;
use crate::outcome::{ActorExitReason, ActorJoinError, ActorResult, TaskOutcome};
use crate::tasks::ActorParams;

verus! {

/// Every command has one decision, whichever way it reaches the registry: through the listener or
/// through the operation of its own.
pub proof fn law_every_way_in_leads_to_one_decision<S>(
    registry: &mut Registry<S>,
    id: TaskId,
    name: String,
    owned: OwnedTask<S>,
    done: Option<OutcomeTx<S>>,
    completion: Option<RemovalCompletion>,
    fresh: RemovalCompletion,
    items: Vec<AddBatchItem<S>>,
    added: oneshot::Sender<AddReply>,
    removed: oneshot::Sender<RemoveReply>,
    canceled: oneshot::Sender<CancelReply>,
    command: RegistryCommand<S>,
    effects: Vec<Effect<S>>,
)
    ensures
        call_ensures(Registry::<S>::handle_command, (registry, command), effects)
            ==> command_decision(
            old(registry)@,
            command,
            final(registry)@,
            effect_views(effects@),
        ),
        call_ensures(
            Registry::<S>::spawn_and_register,
            (registry, id, name, owned, done, completion, fresh, added),
            effects,
        ) ==> command_decision(
            old(registry)@,
            RegistryCommand::Add {
                id,
                name,
                owned,
                outcome: done,
                completion,
                fresh,
                reply: added,
            },
            final(registry)@,
            effect_views(effects@),
        ),
        call_ensures(Registry::<S>::spawn_and_register_batch, (registry, items, added), effects)
            ==> command_decision(
            old(registry)@,
            RegistryCommand::AddBatch { items, reply: added },
            final(registry)@,
            effect_views(effects@),
        ),
        call_ensures(Registry::<S>::remove_task, (registry, id, removed), effects)
            ==> command_decision(
            old(registry)@,
            RegistryCommand::Remove { id, reply: removed },
            final(registry)@,
            effect_views(effects@),
        ),
        call_ensures(Registry::<S>::remove_task_by_name, (registry, name, removed), effects)
            ==> command_decision(
            old(registry)@,
            RegistryCommand::RemoveByName { name, reply: removed },
            final(registry)@,
            effect_views(effects@),
        ),
        call_ensures(Registry::<S>::cancel_task, (registry, id, canceled), effects)
            ==> command_decision(
            old(registry)@,
            RegistryCommand::Cancel { id, reply: canceled },
            final(registry)@,
            effect_views(effects@),
        ),
        call_ensures(Registry::<S>::cancel_task_by_name, (registry, name, canceled), effects)
            ==> command_decision(
            old(registry)@,
            RegistryCommand::CancelByName { name, reply: canceled },
            final(registry)@,
            effect_views(effects@),
        ),
{
    if call_ensures(
        Registry::<S>::spawn_and_register,
        (registry, id, name, owned, done, completion, fresh, added),
        effects,
    ) {
        let before = old(registry)@;
        if before.refusal(name@) is None {
            let (entry, actor) = choose|entry: Entry<S>, actor: ScheduledActor<S>|
                {
                    &&& #[trigger] prepared_pair(
                        entry,
                        actor,
                        id,
                        name,
                        owned,
                        done,
                        chosen_latch(completion, fresh),
                        before.task_defaults,
                    )
                    &&& final(registry)@ == (RegistryView {
                        state: before.state.indexed(id, entry),
                        ..before
                    })
                    &&& effect_views(effects@) == acceptance_effects(id, name@, actor, added)
                };
            let command = RegistryCommand::Add {
                id,
                name,
                owned,
                outcome: done,
                completion,
                fresh,
                reply: added,
            };
            assert(prepared_pair(
                entry,
                actor,
                command->Add_id,
                command->Add_name,
                command->Add_owned,
                command->Add_outcome,
                chosen_latch(command->Add_completion, command->Add_fresh),
                before.task_defaults,
            ));
            assert(command_decision(before, command, final(registry)@, effect_views(effects@)));
        }
    }
}

/// The shutdown sweep hands out the actor of every registered task, with the task's own name, latch
/// pair, and user values, tells each of them to stop by its own identity, and nobody else; every
/// member is then on its way out.
pub proof fn law_the_sweep_stops_every_registered_task<S>(
    registry: &mut Registry<S>,
    sweep: Sweep<S>,
)
    requires
        old(registry)@.valid(),
        call_ensures(Registry::<S>::cancel_all_within, (registry,), sweep),
    ensures
        ({
            let tasks = old(registry)@.state.tasks;
            let effects = effect_views(sweep.effects@);
            &&& forall|id: TaskId|
                #![trigger tasks[id.raw]]
                tasks.contains_key(id.raw) && tasks[id.raw].state is Registered ==> {
                    &&& effects.contains(EffectView::CancelActor(id))
                    &&& exists|k: int|
                        0 <= k < sweep.claims@.len() && (#[trigger] sweep.claims@[k]).id == id
                }
            &&& forall|i: int|
                0 <= i < effects.len() ==> {
                    &&& #[trigger] effects[i] is CancelActor
                    &&& tasks.contains_key(effects[i]->CancelActor_0.raw)
                    &&& tasks[effects[i]->CancelActor_0.raw].state is Registered
                }
            &&& forall|k: int|
                0 <= k < sweep.claims@.len() ==> {
                    let claim = #[trigger] sweep.claims@[k];
                    &&& tasks.contains_key(claim.id.raw)
                    &&& tasks[claim.id.raw].state == EntryState::Registered(claim.handle)
                    &&& tasks[claim.id.raw].name == claim.name
                    &&& claim.handle.completion == claim.completion
                }
            &&& effects.len() == sweep.claims@.len()
            &&& final(registry)@.state.tasks.dom() == tasks.dom()
            &&& final(registry)@.state.by_name == old(registry)@.state.by_name
            &&& forall|id: u64| #[trigger]
                tasks.contains_key(id) ==> final(registry)@.state.tasks[id] == swept(tasks[id])
        }),
{
    let view = old(registry)@;
    let ids = choose|ids: Seq<u64>|
        {
            &&& #[trigger] lists_keys(ids, view.state.tasks)
            &&& final(registry)@ == claimed_upto(view, ids, ids.len() as int)
            &&& sweep.claims@ == won_upto(view, ids, ids.len() as int)
        };
    law_shutdown_tells_every_registered_task(view, ids);
    law_shutdown_keeps_names_and_latches(view, ids);
    law_sweep_claims_every_registered_actor(view, ids);
    let tasks = view.state.tasks;
    let won = sweep.claims@;
    assert(cancellations(won).len() == won.len());
    assert forall|id: TaskId|
        #![trigger tasks[id.raw]]
        tasks.contains_key(id.raw) && tasks[id.raw].state is Registered implies exists|k: int|
            0 <= k < won.len() && (#[trigger] won[k]).id == id by {
        assert(view.state.is_registered(id));
    }
    assert forall|k: int| 0 <= k < won.len() implies {
        let claim = #[trigger] won[k];
        &&& tasks.contains_key(claim.id.raw)
        &&& tasks[claim.id.raw].state == EntryState::Registered(claim.handle)
        &&& tasks[claim.id.raw].name == claim.name
        &&& claim.handle.completion == claim.completion
    } by {
        assert(view.claim(won[k].id) == Some(won[k]));
    }
}

/// The end of a wait for a claimed actor becomes the report of that claim: its identity, watcher,
/// latches, and user values, with the result where there is one and as force-aborted where there is
/// none. During shutdown exactly the aborted ones are named.
pub proof fn law_a_resolved_join_reports_its_claim<S>(
    registry: &mut Registry<S>,
    claim: Claim<S>,
    joined: Option<ActorResult<S>>,
    active: bool,
    stuck: &mut Vec<String>,
    resolved: ResolvedJoin<S>,
    swept: ResolvedJoin<S>,
)
    requires
        call_ensures(Registry::<S>::resolve_join, (registry, claim, joined, active), resolved),
        call_ensures(Registry::<S>::sweep_step, (registry, claim, joined, active, stuck), swept),
    ensures
        resolved.report == swept.report,
        effect_views(resolved.effects@) == effect_views(swept.effects@),
        resolved.report.id == claim.id,
        resolved.report.outcome == claim.handle.done,
        resolved.report.completion == claim.completion,
        resolved.report.cleanup == claim.handle.cleanup,
        joined is None <==> resolved.report.join is ForceAborted,
        joined matches Some(result) ==> resolved.report.join == JoinCompletion::Joined(result),
        joined is None ==> final(stuck)@ == old(stuck)@.push(claim.name),
        joined is Some ==> final(stuck)@ == old(stuck)@,
        final(registry)@.state == old(registry)@.state,
        final(registry)@.pending == old(registry)@.pending,
{
}

/// A completion signal claims the task it names, if nobody did: it is then collected or joined with
/// the grace period, with its own handle, and never forgotten. A signal about any other task
/// changes nothing.
pub proof fn law_a_completion_signal_claims_its_task<S>(
    registry: &mut Registry<S>,
    id: TaskId,
    handle: Handle<S>,
    action: CompletionAction<S>,
)
    requires
        old(registry)@.valid(),
        call_ensures(Registry::<S>::cleanup_completed_task, (registry, id), action),
    ensures
        holds(old(registry)@, id, handle) ==> {
            &&& only_claimed(old(registry)@, id, handle, final(registry)@)
            &&& action matches CompletionAction::Collect(claim) ==> claim.id == id && claim.name
                == old(registry)@.state.tasks[id.raw].name && claim.completion == handle.completion
                && claim.handle.done == handle.done && claim.handle.cleanup == handle.cleanup
                && claim.handle.join.ready is Some
            &&& action matches CompletionAction::Detach(effect) ==> (
            effect matches Effect::Join { claim, force_after } && claim.id == id
                && claim.handle.done == handle.done && claim.handle.cleanup == handle.cleanup
                && claim.completion == handle.completion && force_after == Some(
                old(registry)@.grace,
            ))
            &&& !(action is Ignore)
            &&& handle.join.ready is Some ==> action is Collect
        },
        !(old(registry)@.state.tasks.contains_key(id.raw)
            && old(registry)@.state.tasks[id.raw].state is Registered) ==> action is Ignore
            && final(registry)@ == old(registry)@,
{
    if holds(old(registry)@, id, handle) {
        assert(old(registry)@.state.is_registered(id));
        assert(old(registry)@.pending.owners(id) == 0);
    }
}

/// A commit removes exactly the task it reports about, and only while that task is on its way out;
/// any other report comes back as it was, and nothing changes.
pub proof fn law_a_commit_removes_only_its_task<S>(
    registry: &mut Registry<S>,
    report: PendingTerminalReport<S>,
    commit: Commit<S>,
)
    requires
        old(registry)@.valid(),
        report.outcome is Some,
        report.cleanup is Some,
        call_ensures(Registry::<S>::commit, (registry, report), commit),
    ensures
        ({
            let tasks = old(registry)@.state.tasks;
            let leaving = tasks.contains_key(report.id.raw) && tasks[report.id.raw].state
                is Removing;
            &&& leaving ==> {
                &&& commit is Removed
                &&& commit->Removed_0@.name == tasks[report.id.raw].name
                &&& Some(commit->Removed_0@.outcome) == report.outcome
                &&& commit->Removed_0@.done == report.done
                &&& final(registry)@.state.tasks == tasks.remove(report.id.raw)
                &&& final(registry)@.state.by_name == old(registry)@.state.by_name.remove(
                    tasks[report.id.raw].name@,
                )
                &&& final(registry)@.pending == old(registry)@.pending
                &&& final(registry)@.reaper == old(registry)@.reaper
            }
            &&& !leaving ==> commit == Commit::Stale(report) && final(registry)@ == old(registry)@
        }),
{
}

/// The tail of a removal publishes before it ends anything, and only where its report went through.
pub proof fn law_the_tail_publishes_first<S>(
    registry: &mut Registry<S>,
    tail: TerminalFinalizer<S>,
    effects: Vec<Effect<S>>,
)
    requires
        old(registry)@.valid(),
        call_ensures(Registry::<S>::finalize, (registry, tail), effects),
    ensures
        ({
            let views = effect_views(effects@);
            &&& views == old(registry)@.final_effects(tail@)
            &&& final(registry)@ == old(registry)@.finalized(tail@)
            &&& tail@.reported is Some ==> views[0] is Publish
        }),
{
}

/// What an actor and the reaper tell the registry reaches the registry: a spawned task is stored
/// with its entry or comes back, activity is recorded for the task it is about, and an exit goes to
/// its attempt.
pub proof fn law_notes_reach_their_task<S>(
    registry: &mut Registry<S>,
    id: TaskId,
    handle: Handle<S>,
    task: ActorTask<S>,
    active: bool,
    unused: Option<ActorTask<S>>,
)
    requires
        old(registry)@.valid(),
    ensures
        ({
            let before = old(registry)@;
            let after = final(registry)@;
            let member = before.state.tasks.contains_key(id.raw);
            &&& call_ensures(Registry::<S>::attach_actor_task, (registry, id, task), unused) ==> {
                &&& holds(before, id, handle) ==> {
                    &&& unused is None
                    &&& after.state.tasks[id.raw].state matches EntryState::Registered(next) && {
                        &&& next.join.join_slot == Some(task)
                        &&& next.join.result == handle.join.result
                        &&& next.join.reservation == handle.join.reservation
                        &&& next.done == handle.done
                        &&& next.completion == handle.completion
                        &&& next.cleanup == handle.cleanup
                    }
                }
                &&& !(member && before.state.tasks[id.raw].state is Registered) ==> unused == Some(
                    task,
                ) && after == before
            }
            &&& call_ensures(Registry::<S>::set_activity, (registry, id, active), ()) ==> {
                &&& member ==> after.state.tasks[id.raw] == (Entry {
                    activity: active,
                    ..before.state.tasks[id.raw]
                })
                &&& forall|other: u64|
                    other != id.raw && #[trigger] before.state.tasks.contains_key(other)
                        ==> after.state.tasks[other] == before.state.tasks[other]
                &&& after.state.by_name == before.state.by_name
                &&& after.reaper.records == before.reaper.records
                &&& after.reaper.activities.len() == before.reaper.activities.len()
                &&& forall|i: int|
                    #![trigger before.reaper.activities[i]]
                    0 <= i < before.reaper.activities.len() ==> after.reaper.activities[i].activity
                        == (if before.reaper.activities[i].id == id {
                        active
                    } else {
                        before.reaper.activities[i].activity
                    })
            }
        }),
{
}

/// A retained report keeps its task a member and its waiters waiting: only the user values move on,
/// with an outcome that nobody received.
pub proof fn law_a_retained_report_ends_nothing<S>(
    registry: &mut Registry<S>,
    report: &mut PendingTerminalReport<S>,
    undelivered: Option<TaskOutcome<S>>,
    effects: &mut Vec<Effect<S>>,
    held: bool,
)
    requires
        call_ensures(
            Registry::<S>::retain_terminal,
            (registry, report, undelivered, effects),
            held,
        ),
    ensures
        held <==> old(report).cleanup is Some,
        final(report).cleanup is None,
        final(report).id == old(report).id,
        final(registry)@.state == old(registry)@.state,
        final(registry)@.pending == old(registry)@.pending,
{
}

/// A claim report is classified on its way to its commit, whichever way it takes.
pub proof fn law_finishing_is_classifying_and_committing<S>(
    registry: &mut Registry<S>,
    report: RemovalReport<S>,
    pending: PendingTerminalReport<S>,
    finished: Commit<S>,
    committed: Commit<S>,
)
    requires
        old(registry)@.valid(),
        call_ensures(PendingTerminalReport::<S>::classify, (report,), pending),
        call_ensures(Registry::<S>::finish_removal, (registry, report), finished),
        call_ensures(Registry::<S>::commit, (registry, pending), committed),
    ensures
        finished is Removed <==> committed is Removed,
        finished is Removed ==> finished->Removed_0@ == committed->Removed_0@,
        pending.id == report.id,
        pending.done == report.outcome,
        pending.completion == report.completion,
{
}

/// The reaper coordinator is awaited exactly when no attempt outlives its removal, and what the
/// registry counts is what the reaper holds.
pub proof fn law_the_coordinator_is_awaited_when_idle<S>(
    registry: Registry<S>,
    awaits: bool,
    attempts: usize,
    exceeded: Option<usize>,
    incoming: usize,
    taken: bool,
    name: String,
)
    requires
        call_ensures(Registry::<S>::awaits_coordinator, (&registry,), awaits),
        call_ensures(Registry::<S>::reaping_attempts, (&registry,), attempts),
        call_ensures(Registry::<S>::registered_limit_exceeded, (&registry, incoming), exceeded),
        call_ensures(Registry::<S>::name_taken, (&registry, &name), taken),
    ensures
        awaits <==> registry@.reaper.records.len() == 0,
        attempts == registry@.reaper.records.len(),
        exceeded is None <==> fits(registry@, incoming as nat),
        exceeded is Some ==> exceeded == registry@.limit,
        taken <==> held(registry@, name@),
{
}

/// An outcome that is offered is sent to its watcher, and what nobody received joins the user
/// values of its task, wherever it is offered.
pub proof fn law_every_offer_is_sent_or_kept<S>(
    sender: OutcomeTx<S>,
    outcome: TaskOutcome<S>,
    cleanup: &mut DropBundle<S>,
    report: &mut PendingTerminalReport<S>,
    undelivered: Option<TaskOutcome<S>>,
    announced: &mut AnnouncedRemoval<S>,
)
    ensures
        call_ensures(
            deliver_or_attach_rejection::<S>,
            (Some(sender), outcome, cleanup),
            (),
        ) ==> exists|left: Option<TaskOutcome<S>>| #[trigger]
            sent_leaving(sender, outcome, left) && (left is None ==> final(cleanup).outcomes@
                == old(cleanup).outcomes@) && (left is Some ==> final(cleanup).outcomes@ == old(
                cleanup).outcomes@.push(outcome)),
        call_ensures(deliver_or_attach_rejection::<S>, (None, outcome, cleanup), ()) ==> final(
            cleanup).outcomes@ == old(cleanup).outcomes@.push(outcome),
        call_ensures(attach_undelivered::<S>, (undelivered, cleanup), ()) ==> (undelivered is None
            ==> final(cleanup).outcomes@ == old(cleanup).outcomes@) && (undelivered
            is Some ==> final(cleanup).outcomes@ == old(cleanup).outcomes@.push(undelivered->0))
            && final(cleanup).ticket == old(cleanup).ticket && final(cleanup).poisoned == old(
            cleanup).poisoned,
        call_ensures(PendingTerminalReport::<S>::deliver, (report,), undelivered) && old(
            report).outcome == Some(outcome) && old(report).done == Some(sender) ==> sent_leaving(
            sender,
            outcome,
            undelivered,
        ) && final(report).outcome is None && final(report).cleanup == old(report).cleanup,
        call_ensures(PendingTerminalReport::<S>::deliver, (report,), undelivered) && old(
            report).outcome == Some(outcome) && old(report).done is None ==> undelivered == Some(
            outcome,
        ),
        call_ensures(AnnouncedRemoval::<S>::deliver, (announced,), ()) && old(announced)@.outcome
            == Some(outcome) && old(announced)@.done == Some(sender) ==> sent_leaving(
            sender,
            outcome,
            final(announced)@.outcome,
        ) && final(announced)@.delivered && final(announced)@.cleanup == old(announced)@.cleanup
            && final(announced)@.barriers == old(announced)@.barriers,
        call_ensures(AnnouncedRemoval::<S>::deliver, (announced,), ()) && old(announced)@.outcome
            == Some(outcome) && old(announced)@.done is None ==> final(announced)@.outcome == Some(
            outcome,
        ),
{
    if call_ensures(deliver_or_attach_rejection::<S>, (Some(sender), outcome, cleanup), ()) {
        let left = choose|left: Option<TaskOutcome<S>>| #[trigger]
            offered(Some(sender), outcome, left) && final(cleanup).outcomes@ == kept_with(
                old(cleanup).outcomes@,
                left,
            );
        assert(sent_leaving(sender, outcome, left));
    }
}

/// An actor and its handle are two halves of one task: the handle has the identity, the name, and
/// the latch of its registration, and the result that the actor sends is the one the handle
/// receives.
pub proof fn law_an_actor_reports_to_its_handle<S>(
    registration: ActorRegistration,
    params: ActorParams,
    pair: (ScheduledActor<S>, ActorHandle<S>),
    result: ActorResult<S>,
    tail: (TaskId, Option<ActorResult<S>>),
)
    requires
        call_ensures(ScheduledActor::<S>::new, (registration, params), pair),
        call_ensures(ScheduledActor::<S>::report, (pair.0, result), tail),
    ensures
        pair.0.id == registration.id,
        pair.0.params == params,
        pair.1.result is Some && connected(pair.0.result, pair.1.result->0),
        pair.1.reservation == Some(
            AttemptReservation {
                id: registration.id,
                name: registration.name,
                physical_release: registration.physical_release,
            },
        ),
        tail.0 == registration.id,
        sent_leaving(pair.0.result, result, tail.1),
{
}

/// A handle waits for its task: a logical result comes first, no result comes before the task
/// ended, and an abort turns the handle into an aborted one for good.
pub proof fn law_a_handle_waits_for_its_task<S>(
    handle: &mut ActorHandle<S>,
    reaper: &mut AttemptReaper<S>,
    active: bool,
    plan: AbortPlan<S>,
    probe: Probe<ActorResult<S>>,
    joined: Option<Joined<S>>,
    turn: Option<ActorResult<S>>,
)
    ensures
        call_ensures(ActorHandle::<S>::abort, (handle, reaper, active), plan) ==> {
            &&& final(handle).logical == Some(
                Err::<ActorExitReason<S>, _>(ActorJoinError::Aborted),
            )
            &&& final(handle).join is None
            &&& plan is Nothing <==> old(handle).join is None && old(handle).join_slot is None
            &&& plan matches AbortPlan::Reap(order) ==> old(handle).reservation is Some && order.id
                == old(handle).reservation->0.id && order.result == old(handle).result
                && final(reaper)@.records.len() == old(reaper)@.records.len() + 1
            &&& !(plan is Reap) ==> final(reaper)@ == old(reaper)@
        },
        call_ensures(ActorHandle::<S>::poll, (handle, probe, joined), turn) ==> {
            &&& old(handle).logical is Some ==> turn == old(handle).logical
            &&& old(handle).logical is None && (joined is None || (old(handle).join is None && old(
                handle).join_slot is None)) ==> turn is None
            &&& old(handle).logical is None && joined is Some && (old(handle).join is Some || old(
                handle).join_slot is Some) ==> turn is Some && final(handle).join is None
            &&& old(handle).logical is None && joined is Some && old(handle).join is Some && old(
                handle).ready is Some ==> turn == old(handle).ready
        },
{
    if call_ensures(ActorHandle::<S>::poll, (handle, probe, joined), turn) && old(handle).logical
        is None && joined is Some && (old(handle).join is Some || old(handle).join_slot is Some) {
        let before = loaded(*old(handle));
        let seen = if before.ready is None && before.result is Some {
            noted(before, probe)
        } else {
            before
        };
        law_an_ended_task_has_its_result(seen, joined->0, *final(handle), turn->0);
    }
}

/// The removal barrier counts owners up and down one by one, and tells when the last one went.
pub proof fn law_the_barrier_counts_owners(
    pending: &mut PendingJoins,
    id: TaskId,
    name: String,
    drained: bool,
)
    requires
        old(pending)@.valid(),
        old(pending)@.owners(id) < usize::MAX,
    ensures
        call_ensures(PendingJoins::inc_with_name, (pending, id, name), ()) ==> final(
            pending)@.owners(id) == old(pending)@.owners(id) + 1 && final(pending)@.names[id.raw]
            == name,
        call_ensures(PendingJoins::dec, (pending, id), drained) ==> (old(pending)@.owners(id) > 0
            ==> final(pending)@.owners(id) == old(pending)@.owners(id) - 1) && (drained
            <==> forall|other: TaskId| #[trigger] final(pending)@.owners(other) == 0),
{
    if call_ensures(PendingJoins::dec, (pending, id), drained) {
        law_drained_means_no_owner(final(pending)@);
    }
}

/// The reaper keeps what it is told: registering reserves the name, an exit and a report go to
/// their attempt, and the queries answer from what is reserved.
pub proof fn law_the_reaper_keeps_what_it_is_told<S>(
    reaper: &mut AttemptReaper<S>,
    reservation: AttemptReservation,
    active: bool,
    id: TaskId,
    release: RemovalCompletion,
    output: u64,
    poisoned: bool,
    bundle: DropBundle<S>,
    state: Option<RemovalCompletion>,
    effects: &mut Vec<Effect<S>>,
    reaped: Vec<Effect<S>>,
)
    ensures
        call_ensures(AttemptReaper::<S>::register, (reaper, reservation, active), ()) ==> {
            &&& final(reaper)@.activities.last().name == reservation.name
            &&& final(reaper)@.activities.last().activity == active
            &&& final(reaper)@.activities.drop_last() == old(reaper)@.activities
            &&& final(reaper)@.records.last().id == reservation.id
            &&& final(reaper)@.records.last().release == reservation.physical_release
            &&& final(reaper)@.records.drop_last() == old(reaper)@.records
        },
        call_ensures(AttemptReaper::<S>::reap, (reaper, id, release, output, poisoned), reaped) ==> {
            &&& final(reaper)@ == old(reaper)@.after_physical(id, release, output, poisoned)
            &&& effect_views(reaped@) == old(reaper)@.physical_effects(
                id,
                release,
                output,
                poisoned,
            )
        },
        call_ensures(
            AttemptReaper::<S>::attach_terminal,
            (reaper, id, bundle, state, release, effects),
            (),
        ) ==> {
            let releases = TerminalReleases { state, report: release };
            &&& final(reaper)@ == old(reaper)@.after_terminal(id, bundle, releases)
            &&& effect_views(final(effects)@) == effect_views(old(effects)@) + old(
                reaper)@.terminal_effects(id, bundle, releases)
        },
{
    if call_ensures(AttemptReaper::<S>::register, (reaper, reservation, active), ()) {
        assert(final(reaper)@.activities.drop_last() =~= old(reaper)@.activities);
        assert(final(reaper)@.records.drop_last() =~= old(reaper)@.records);
    }
}

} // verus!
