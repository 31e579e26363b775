//! How a task ends for its watcher, its callers, and its user values.

use vstd::prelude::*;

use super::RegistryView;
use super::actor::{
    abort_plan, aborted, completed, join_result, loaded, looked_into, noted, AbortPlan, ActorHandle,
    ActorTask, AttemptReservation, JoinFailure, Joined,
};
use super::admission::{kept_with, offered};
use super::completion::{OutcomeTx, RemovalCompletion};
use super::effects::EffectView;
use super::join::{abort_effects, join_turn, reaper_after_abort, JoinTurn};
use super::state::{EntryState, Handle};
use super::terminal::{
    classified, classified_bundle, finished_event_view, interrupted, outcome_for, poisons,
    retained_bundle, stale_tail, AnnouncedRemoval, Interruption, JoinCompletion,
    PendingTerminalReport, RemovalReport, TailView, TerminalCommit, TerminalFinalizer,
};
use crate::channel::{sent_leaving, Probe};
use crate::deferred_drop::DropBundle;
use crate::events::{Event, EventKind};
use crate::identity::TaskId;
use crate::outcome::{
    ActorExitReason, ActorJoinError, ActorResult, TaskOutcome, TaskOutcomeKind, TaskOutcomeView,
};

verus! {

/// A watcher learns exactly what the actor ended with: a failure keeps its reason, its exit code,
/// and its source, whether retries ran out or it was fatal, and no other end is taken for one.
pub proof fn law_an_outcome_keeps_its_diagnosis<S>(
    result: ActorResult<S>,
    reason: String,
    exit_code: Option<i32>,
    source: Option<S>,
)
    ensures
        result == Ok::<_, ActorJoinError>(
            ActorExitReason::Exhausted { reason, exit_code, source },
        ) <==> outcome_for(result) == (TaskOutcome::Failed { reason, exit_code, source }),
        result == Ok::<_, ActorJoinError>(ActorExitReason::Fatal { reason, exit_code, source })
            <==> outcome_for(result) == (TaskOutcome::Fatal { reason, exit_code, source }),
        outcome_for(result) is Completed <==> result == Ok::<_, ActorJoinError>(
            ActorExitReason::<S>::Completed,
        ),
        outcome_for(result) is Canceled <==> result == Ok::<_, ActorJoinError>(
            ActorExitReason::<S>::Canceled,
        ),
        outcome_for(result) is ForceAborted <==> result == Err::<ActorExitReason<S>, _>(
            ActorJoinError::Aborted,
        ),
        outcome_for(result) is Panicked <==> (result matches Ok(exit) && exit is Panicked) || (
        result matches Err(error) && error is Panicked),
        !(outcome_for(result) is Rejected),
{
}

/// Only a panic that also poisoned cleanup poisons the user values, and nothing else about them
/// changes.
pub proof fn law_only_a_poisoned_cleanup_poisons<S>(result: ActorResult<S>, bundle: DropBundle<S>)
    ensures
        ({
            let after = classified_bundle(bundle, poisons(result));
            let poisoned = result == Ok::<_, ActorJoinError>(
                ActorExitReason::<S>::Panicked { cleanup_poisoned: true },
            ) || result == Err::<ActorExitReason<S>, _>(
                ActorJoinError::Panicked { cleanup_poisoned: true },
            );
            &&& after.poisoned <==> bundle.poisoned || poisoned
            &&& after.ticket == bundle.ticket
            &&& after.outcomes == bundle.outcomes
            &&& after.output == bundle.output
            &&& after.payload == bundle.payload
        }),
{
}

/// An outcome is read as it is, and its category tells the seven kinds apart.
pub proof fn law_an_outcome_is_read_as_it_is<S>(outcome: TaskOutcome<S>)
    ensures
        match outcome {
            TaskOutcome::Failed { reason, exit_code, source } => outcome@ == (
            TaskOutcomeView::Failed { reason: reason@, exit_code, source }),
            TaskOutcome::Fatal { reason, exit_code, source } => outcome@ == (
            TaskOutcomeView::Fatal { reason: reason@, exit_code, source }),
            TaskOutcome::Rejected { kind, reason } => outcome@ == (TaskOutcomeView::<S>::Rejected {
                kind,
                reason: reason@,
            }),
            _ => true,
        },
        outcome is Completed <==> outcome@.kind() == TaskOutcomeKind::Completed,
        outcome is Canceled <==> outcome@.kind() == TaskOutcomeKind::Canceled,
        outcome is Failed <==> outcome@.kind() == TaskOutcomeKind::Failed,
        outcome is Fatal <==> outcome@.kind() == TaskOutcomeKind::Fatal,
        outcome is Panicked <==> outcome@.kind() == TaskOutcomeKind::Panicked,
        outcome is ForceAborted <==> outcome@.kind() == TaskOutcomeKind::ForceAborted,
        outcome is Rejected <==> outcome@.kind() == TaskOutcomeKind::Rejected,
        outcome is Completed <==> outcome@ is Completed,
        outcome is Canceled <==> outcome@ is Canceled,
        outcome is Panicked <==> outcome@ is Panicked,
        outcome is ForceAborted <==> outcome@ is ForceAborted,
{
}

/// The terminal event tells the same story as the outcome: same task, same category, and for a
/// failure the same reason and exit code. An end without a failure carries neither.
pub proof fn law_the_event_tells_what_the_watcher_learns<S>(
    id: TaskId,
    name: Seq<char>,
    outcome: TaskOutcome<S>,
)
    ensures
        ({
            let event = finished_event_view(id, name, outcome@);
            &&& event.kind == EventKind::TaskFinished
            &&& event.id == Some(id)
            &&& event.task == Some(name)
            &&& event.outcome == Some(outcome@.kind())
            &&& event.rejection is None
            &&& match outcome {
                TaskOutcome::Failed { reason, exit_code, .. } => event.reason == Some(reason@)
                    && event.exit_code == exit_code,
                TaskOutcome::Fatal { reason, exit_code, .. } => event.reason == Some(reason@)
                    && event.exit_code == exit_code,
                TaskOutcome::ForceAborted => event.exit_code is None && event.reason == Some(
                    "task did not stop within grace; force-aborted"@,
                ),
                TaskOutcome::Panicked => event.exit_code is None && event.reason == Some(
                    "internal task runner panicked"@,
                ),
                _ => event.reason is None && event.exit_code is None,
            }
        }),
{
}

/// Classifying a removal loses nothing: identity, watcher, latches, and user values go on, and an
/// aborted actor is reported as force-aborted.
pub proof fn law_classification_hands_everything_on<S>(report: RemovalReport<S>)
    ensures
        ({
            let pending = classified(report);
            &&& pending.id == report.id
            &&& pending.done == report.outcome
            &&& pending.completion == report.completion
            &&& pending.detach_on_drop
            &&& pending.cleanup matches Some(cleanup) && cleanup.ticket == report.cleanup.ticket
                && cleanup.outcomes == report.cleanup.outcomes && cleanup.output
                == report.cleanup.output && cleanup.payload == report.cleanup.payload && (
            report.cleanup.poisoned ==> cleanup.poisoned)
            &&& match report.join {
                JoinCompletion::Joined(result) => pending.outcome == Some(outcome_for(result)),
                JoinCompletion::ForceAborted => {
                    &&& pending.outcome == Some(TaskOutcome::<S>::ForceAborted)
                    &&& pending.cleanup == Some(report.cleanup)
                },
            }
        }),
{
}

/// An outcome is delivered or kept, never both and never neither: what nobody received joins the
/// user values once, behind what they hold already, and nothing else about them changes.
pub proof fn law_an_outcome_is_delivered_or_kept<S>(
    done: Option<OutcomeTx<S>>,
    outcome: TaskOutcome<S>,
    left: Option<TaskOutcome<S>>,
    cleanup: DropBundle<S>,
    bundle: DropBundle<S>,
)
    requires
        offered(done, outcome, left),
        retained_bundle(bundle, cleanup, left),
    ensures
        done is None ==> bundle.outcomes@ == cleanup.outcomes@.push(outcome),
        done matches Some(sender) ==> sent_leaving(sender, outcome, left),
        left is None ==> bundle.outcomes@ == cleanup.outcomes@,
        left is Some ==> bundle.outcomes@ == cleanup.outcomes@.push(outcome),
        bundle.ticket == cleanup.ticket,
        bundle.output == cleanup.output,
        bundle.payload == cleanup.payload,
        bundle.poisoned == cleanup.poisoned,
        kept_with(cleanup.outcomes@, left) == bundle.outcomes@,
{
}

/// A committed removal hands on the report of the entry it removed: its name, the report's outcome
/// and watcher, both latch pairs, and whether that was the last member.
pub proof fn law_a_commit_hands_on_its_report<S>(
    view: RegistryView<S>,
    report: PendingTerminalReport<S>,
    completion: RemovalCompletion,
)
    requires
        view.valid(),
        view.state.tasks.contains_key(report.id.raw),
        view.state.tasks[report.id.raw].state == (EntryState::<S>::Removing { completion }),
        report.outcome is Some,
        report.cleanup is Some,
    ensures
        ({
            let commit = view.committed(report);
            &&& commit.name == view.state.tasks[report.id.raw].name
            &&& Some(commit.outcome) == report.outcome
            &&& commit.done == report.done
            &&& Some(commit.cleanup) == report.cleanup
            &&& commit.barriers.id == report.id
            &&& commit.barriers.state_completion == Some(completion)
            &&& commit.barriers.report_completion == report.completion
            &&& commit.barriers.is_empty <==> forall|id: u64| #[trigger]
                view.state.tasks.contains_key(id) ==> id == report.id.raw
        }),
{
    let rest = view.state.without(report.id).tasks;
    assert forall|id: u64| #[trigger] rest.contains_key(id) implies view.state.tasks.contains_key(
        id,
    ) && id != report.id.raw by {}
    if forall|id: u64| #[trigger] view.state.tasks.contains_key(id) ==> id == report.id.raw {
        assert(rest.dom() =~= Set::<u64>::empty());
    }
    if rest.dom() == Set::<u64>::empty() {
        assert forall|id: u64| #[trigger] view.state.tasks.contains_key(id) implies id
            == report.id.raw by {
            assert(!rest.dom().contains(id));
        }
    }
}

/// The tail of a removal ends what has to end, and nothing else: both logical latches, the waiters
/// for the last removal exactly when no owner is left, and the waiters for an empty registry
/// exactly when the last member went. It takes one owner off the barrier, and membership is not
/// touched.
pub proof fn law_the_tail_ends_every_barrier<S>(view: RegistryView<S>, tail: TailView<S>)
    requires
        view.valid(),
    ensures
        ({
            let effects = view.final_effects(tail);
            let after = view.finalized(tail);
            let id = tail.barriers.id;
            &&& effects.contains(EffectView::CompleteLogical(tail.barriers.report_completion))
            &&& tail.barriers.state_completion matches Some(completion) ==> effects.contains(
                EffectView::CompleteLogical(completion),
            )
            &&& effects.contains(EffectView::JoinsDrained) <==> forall|other: u64| #[trigger]
                view.pending.counts.contains_key(other) ==> other == id.raw
                    && view.pending.counts[other] <= 1
            &&& effects.contains(EffectView::RegistryEmpty) <==> tail.barriers.is_empty
            &&& forall|i: int|
                0 <= i < effects.len() && #[trigger] effects[i] is CompleteLogical ==> effects[i]
                    == EffectView::<S>::CompleteLogical(tail.barriers.report_completion)
                    || Some(effects[i]->CompleteLogical_0) == tail.barriers.state_completion
            &&& after.state == view.state
            &&& after.pending.owners(id) == (if view.pending.owners(id) == 0 {
                0
            } else {
                view.pending.owners(id) - 1
            })
            &&& forall|other: TaskId|
                other != id ==> #[trigger] after.pending.owners(other) == view.pending.owners(
                    other,
                )
        }),
{
    let effects = view.final_effects(tail);
    let after = view.finalized(tail);
    let barriers = tail.barriers;
    let id = barriers.id;
    let handover = view.reaper.terminal_effects(id, tail.terminal, barriers.releases());
    let removed: int = if tail.reported is Some {
        1
    } else {
        0
    };
    let drained: int = if view.pending.finished(id).drained() {
        1
    } else {
        0
    };
    let latch: int = if barriers.state_completion is Some {
        1
    } else {
        0
    };
    let start = removed + handover.len();
    lemma_handover_ends_nothing(view, tail);
    assert forall|i: int| 0 <= i < handover.len() implies #[trigger] effects[removed + i]
        == handover[i] by {}
    assert forall|i: int| 0 <= i < start implies !ends_logically(#[trigger] effects[i]) by {
        if i >= removed {
            assert(effects[removed + (i - removed)] == handover[i - removed]);
        }
    }
    if drained == 1 {
        assert(effects[start] is JoinsDrained);
    }
    if let Some(completion) = barriers.state_completion {
        assert(effects[start + drained] == EffectView::<S>::CompleteLogical(completion));
    }
    assert(effects[start + drained + latch] == EffectView::<S>::CompleteLogical(
        barriers.report_completion,
    ));
    if barriers.is_empty {
        assert(effects[start + drained + latch + 1] is RegistryEmpty);
    }
    if effects.contains(EffectView::JoinsDrained) {
        let i = choose|i: int| 0 <= i < effects.len() && effects[i] == EffectView::<
            S,
        >::JoinsDrained;
        assert(i >= start);
        assert(drained == 1);
    }
    if effects.contains(EffectView::RegistryEmpty) {
        let i = choose|i: int| 0 <= i < effects.len() && effects[i] == EffectView::<
            S,
        >::RegistryEmpty;
        assert(i >= start);
    }
    lemma_drained_by_the_last_owner(view, id);
    assert forall|i: int|
        0 <= i < effects.len() && #[trigger] effects[i] is CompleteLogical implies effects[i]
        == EffectView::<S>::CompleteLogical(barriers.report_completion) || Some(
        effects[i]->CompleteLogical_0,
    ) == barriers.state_completion by {
        assert(i >= start);
    }
    assert forall|other: TaskId| other != id implies #[trigger] after.pending.owners(other)
        == view.pending.owners(other) by {
        assert(other.raw != id.raw);
    }
}

/// Whether an effect signals a logical end.
pub open spec fn ends_logically<S>(effect: EffectView<S>) -> bool {
    effect is CompleteLogical || effect is JoinsDrained || effect is RegistryEmpty
}

/// Handing user values to the reaper signals no logical end.
proof fn lemma_handover_ends_nothing<S>(view: RegistryView<S>, tail: TailView<S>)
    ensures
        forall|i: int|
            0 <= i < view.reaper.terminal_effects(
                tail.barriers.id,
                tail.terminal,
                tail.barriers.releases(),
            ).len() ==> !ends_logically(
                #[trigger] view.reaper.terminal_effects(
                    tail.barriers.id,
                    tail.terminal,
                    tail.barriers.releases(),
                )[i],
            ),
{
}

/// The barrier drains with the last owner of the last task.
proof fn lemma_drained_by_the_last_owner<S>(view: RegistryView<S>, id: TaskId)
    requires
        view.valid(),
    ensures
        view.pending.finished(id).drained() <==> forall|other: u64| #[trigger]
            view.pending.counts.contains_key(other) ==> other == id.raw
                && view.pending.counts[other] <= 1,
{
    let next = view.pending.finished(id);
    if forall|other: u64| #[trigger]
        view.pending.counts.contains_key(other) ==> other == id.raw && view.pending.counts[other]
            <= 1 {
        assert(next.counts.dom() =~= Set::<u64>::empty()) by {
            assert forall|other: u64| !next.counts.dom().contains(other) by {
                if view.pending.counts.contains_key(other) {
                    assert(other == id.raw);
                }
            }
        }
    }
    if next.drained() {
        assert forall|other: u64| #[trigger] view.pending.counts.contains_key(other) implies other
            == id.raw && view.pending.counts[other] <= 1 by {
            assert(!next.counts.dom().contains(other));
        }
    }
}

/// A stale report ends its own latch and announces nothing: no event, and no empty registry.
pub proof fn law_a_stale_report_stays_silent<S>(
    view: RegistryView<S>,
    id: TaskId,
    completion: RemovalCompletion,
    bundle: DropBundle<S>,
)
    requires
        view.valid(),
    ensures
        ({
            let tail = stale_tail(id, completion, bundle);
            let effects = view.final_effects(tail);
            &&& effects.contains(EffectView::CompleteLogical(completion))
            &&& forall|i: int|
                0 <= i < effects.len() ==> !(#[trigger] effects[i] is Publish)
                    && !(effects[i] is RegistryEmpty)
            &&& view.finalized(tail).state == view.state
        }),
{
    let tail = stale_tail(id, completion, bundle);
    let effects = view.final_effects(tail);
    let handover = view.reaper.terminal_effects(id, bundle, tail.barriers.releases());
    law_the_tail_ends_every_barrier(view, tail);
    lemma_handover_ends_nothing(view, tail);
    assert forall|i: int| 0 <= i < effects.len() implies !(#[trigger] effects[i] is Publish)
        && !(effects[i] is RegistryEmpty) by {
        if i < handover.len() {
            assert(effects[i] == handover[i]);
        }
    }
}

/// An interrupted report is never lost and never continued twice: what still has user values goes
/// to one continuation where a runtime can run it, else it is kept, and the continuation is kept
/// when it is interrupted in turn.
pub proof fn law_an_interrupted_report_goes_on_once<S>(
    before: PendingTerminalReport<S>,
    runtime_available: bool,
    after: PendingTerminalReport<S>,
    interruption: Interruption<S>,
)
    requires
        interrupted(before, runtime_available, after, interruption),
    ensures
        interruption is Finished <==> before.cleanup is None,
        interruption is Continue <==> before.cleanup is Some && before.detach_on_drop
            && runtime_available,
        interruption matches Interruption::Continue(next) ==> {
            &&& !next.detach_on_drop
            &&& next.id == before.id
            &&& next.outcome == before.outcome
            &&& next.done == before.done
            &&& next.cleanup == before.cleanup
            &&& next.completion == before.completion
            &&& after.cleanup is None && after.outcome is None && after.done is None
        },
        interruption is Retain ==> after == before,
{
}

/// Of all that is known about an ended actor the result it sent counts first. Without one the
/// task's own return counts, a panic is a panic, and everything else is an abort.
pub proof fn law_the_sent_result_counts_first<S>(
    result: ActorResult<S>,
    poisoned: bool,
    joined: Joined<S>,
)
    ensures
        join_result(Some(result), joined) == result,
        join_result(None, Ok(Some(result))) == result,
        join_result(None::<ActorResult<S>>, Ok(None)) == Err::<ActorExitReason<S>, _>(
            ActorJoinError::Aborted,
        ),
        join_result(
            None::<ActorResult<S>>,
            Err(JoinFailure::Panicked { cleanup_poisoned: poisoned }),
        ) == Err::<ActorExitReason<S>, _>(ActorJoinError::Panicked { cleanup_poisoned: poisoned }),
        join_result(None::<ActorResult<S>>, Err(JoinFailure::Cancelled)) == Err::<
            ActorExitReason<S>,
            _,
        >(ActorJoinError::Aborted),
{
}

/// A look into the result channel never loses a result: one that is known stays, one that is found
/// is kept, and nothing else of the handle changes but the channel itself.
pub proof fn law_a_look_keeps_every_result<S>(before: ActorHandle<S>, after: ActorHandle<S>)
    requires
        looked_into(before, after),
    ensures
        before.ready is Some ==> after == before,
        before.result is None ==> after == before,
        after.join == before.join,
        after.join_slot == before.join_slot,
        after.logical == before.logical,
        after.reservation == before.reservation,
        before.ready is None && after.ready is Some ==> after.result is None,
{
}

/// What a look finds is what counts: a value becomes the ready result, a closed channel is given
/// up, and an empty one is left for the next look.
pub proof fn law_a_found_result_is_ready<S>(
    handle: ActorHandle<S>,
    result: ActorResult<S>,
)
    ensures
        noted(handle, Probe::Ready(result)).ready == Some(result),
        noted(handle, Probe::Ready(result)).result is None,
        noted(handle, Probe::Closed).ready == handle.ready,
        noted(handle, Probe::Closed).result is None,
        noted(handle, Probe::Empty) == handle,
        noted(handle, Probe::Ready(result)).join == handle.join,
        noted(handle, Probe::Ready(result)).reservation == handle.reservation,
{
}

/// A forced abort ends the physical task where there is one, and reserves its name first where it
/// can outlive its removal: the reaper gets that very task, its channel, and what it sent, under
/// the identity and the latch of its reservation, and counts one attempt more under its name.
pub proof fn law_an_abort_ends_the_task_and_reserves_its_name<S>(
    view: RegistryView<S>,
    handle: Handle<S>,
    task: ActorTask<S>,
    reservation: AttemptReservation,
    active: bool,
)
    requires
        handle.join.reservation == Some(reservation),
        handle.join.join == Some(task) || (handle.join.join is None && handle.join.join_slot
            == Some(task)),
    ensures
        ({
            let after = reaper_after_abort(view.reaper, handle, active);
            &&& abort_effects(handle).len() == 1
            &&& abort_effects(handle)[0] matches EffectView::Abort(AbortPlan::Reap(order)) && {
                &&& order.join == task
                &&& order.id == reservation.id
                &&& order.release == reservation.physical_release
                &&& order.result == handle.join.result
                &&& order.ready == handle.join.ready
            }
            &&& after.records.len() == view.reaper.records.len() + 1
            &&& after.records.last().id == reservation.id
            &&& after.records.last().name == reservation.name
            &&& after.records.last().release == reservation.physical_release
            &&& after.records.last().physical is None
            &&& after.records.last().terminal is None
            &&& after.activities.len() == view.reaper.activities.len() + 1
            &&& after.activities.last().name == reservation.name
            &&& after.activities.last().activity == active
            &&& forall|i: int|
                0 <= i < view.reaper.records.len() ==> #[trigger] after.records[i]
                    == view.reaper.records[i]
            &&& aborted(handle.join).logical == Some(
                Err::<ActorExitReason<S>, _>(ActorJoinError::Aborted),
            )
            &&& aborted(handle.join).join is None
        }),
{
}

/// Without a physical task there is nothing to abort and nothing to reap; a task without a
/// reservation is aborted and not reaped.
pub proof fn law_nothing_is_reaped_without_a_task_and_a_reservation<S>(
    view: RegistryView<S>,
    handle: Handle<S>,
    task: ActorTask<S>,
    active: bool,
)
    ensures
        handle.join.join is None && handle.join.join_slot is None ==> {
            &&& abort_effects(handle).len() == 0
            &&& reaper_after_abort(view.reaper, handle, active) == view.reaper
        },
        handle.join.reservation is None ==> reaper_after_abort(view.reaper, handle, active)
            == view.reaper,
        handle.join.reservation is None && handle.join.join == Some(task) ==> abort_effects(handle)
            == seq![EffectView::<S>::Abort(AbortPlan::Abort(task))],
        loaded(handle.join).join is Some <==> handle.join.join is Some || handle.join.join_slot
            is Some,
        abort_plan(handle.join) is Nothing <==> handle.join.join is None && handle.join.join_slot
            is None,
{
}

/// A finished actor counts over shutdown and deadline; without a result either of those aborts it,
/// and without any of them the wait goes on.
pub proof fn law_a_finished_actor_is_not_aborted<S>(
    result: ActorResult<S>,
    cancelled: bool,
    expired: bool,
    finished: JoinTurn<S>,
    unfinished: JoinTurn<S>,
)
    requires
        call_ensures(join_turn::<S>, (Some(result), cancelled, expired), finished),
        call_ensures(join_turn::<S>, (None, cancelled, expired), unfinished),
    ensures
        finished == JoinTurn::Joined(result),
        unfinished is ForceAbort <==> cancelled || expired,
        unfinished is Wait <==> !cancelled && !expired,
{
}

/// The tail can only follow the report: what a removal announces, delivers, and ends with is about
/// the same task, and the outcome that nobody received is the one that was announced.
pub proof fn law_a_report_is_about_one_removal<S>(
    commit: TerminalCommit<S>,
    announced: (Event, AnnouncedRemoval<S>),
    tail: TerminalFinalizer<S>,
)
    requires
        call_ensures(TerminalCommit::<S>::announce, (commit,), announced),
        call_ensures(AnnouncedRemoval::<S>::unwound, (announced.1,), tail),
    ensures
        announced.0@.kind == EventKind::TaskFinished,
        announced.0@.id == Some(commit@.barriers.id),
        announced.0@.task == Some(commit@.name@),
        announced.0@.outcome == Some(commit@.outcome@.kind()),
        announced.1@.outcome == Some(commit@.outcome),
        announced.1@.done == commit@.done,
        !announced.1@.delivered,
        tail@.barriers == commit@.barriers,
        tail@.reported is None,
        tail@.terminal.ticket == commit@.cleanup.ticket,
        tail@.terminal.outcomes@ == commit@.cleanup.outcomes@.push(commit@.outcome),
{
}

/// A delivered report ends with its removal event under the announced name.
pub proof fn law_a_delivered_report_names_its_task<S>(
    announced: AnnouncedRemoval<S>,
    tail: TerminalFinalizer<S>,
)
    requires
        announced@.delivered,
        call_ensures(AnnouncedRemoval::<S>::finish, (announced,), tail),
    ensures
        tail@.reported == Some(announced@.name@),
        tail@.barriers == announced@.barriers,
        tail@.terminal.ticket == announced@.cleanup.ticket,
        tail@.terminal.poisoned == announced@.cleanup.poisoned,
        announced@.outcome is None ==> tail@.terminal.outcomes@ == announced@.cleanup.outcomes@,
        announced@.outcome is Some ==> tail@.terminal.outcomes@
            == announced@.cleanup.outcomes@.push(announced@.outcome->0),
{
}

/// An ended task has the result that was sent before it ended: a known one first, one in the
/// channel next, else what the task itself returned. The handle is then spent.
pub proof fn law_an_ended_task_has_its_result<S>(
    before: ActorHandle<S>,
    joined: Joined<S>,
    after: ActorHandle<S>,
    result: ActorResult<S>,
)
    requires
        completed(before, joined, after, result),
    ensures
        before.ready matches Some(known) ==> result == known,
        before.ready is None && before.result is None ==> result == join_result(None, joined),
        after.join is None,
        after.reservation is None,
        after.ready is None,
        after.join_slot == before.join_slot,
        after.logical == before.logical,
{
    let seen = choose|seen: ActorHandle<S>| #[trigger]
        looked_into(ActorHandle { join: None, reservation: None, ..before }, seen) && result
            == join_result(seen.ready, joined) && after == (ActorHandle { ready: None, ..seen });
    law_a_look_keeps_every_result(
        ActorHandle { join: None, reservation: None, ..before },
        seen,
    );
}

} // verus!
