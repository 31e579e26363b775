//! Final registry state after an actor join produced a result.
//!
//! The join result is first mapped to its public outcome. Terminal commit then removes the
//! identity and name indexes. After that the terminal events are published around the delivery of
//! the outcome, user values move to physical and deferred cleanup, and the tail completes every
//! logical barrier.

use vstd::prelude::*;

use super::actor::AbortPlan;
use super::admission::{attach_undelivered, kept_with, offer, offered, task_event_of};
use super::completion::{OutcomeTx, RemovalCompletion};
use super::effects::{effect_views, lemma_effect_views_push, Effect, EffectView};
use super::join::{abort_effects, reaper_after_abort};
use super::reaper::{ReaperView, TerminalReleases};
use super::state::Handle;
use super::{lemma_kept_phases_valid, Registry, RegistryView};
use crate::channel::{runtime_probed, tokio_runtime_active};
use crate::deferred_drop::DropBundle;
use crate::events::{task_event, Event, EventKind, EventView};
use crate::identity::TaskId;
use crate::outcome::{ActorExitReason, ActorJoinError, ActorResult, TaskOutcome, TaskOutcomeView};
use crate::reasons::{FORCE_ABORTED, RUNNER_PANICKED};

verus! {

broadcast use lemma_effect_views_push;

/// Terminal join state passed to registry cleanup.
#[derive(Debug)]
pub enum JoinCompletion<S> {
    /// Result returned by the actor.
    Joined(ActorResult<S>),
    /// Removal transferred an unfinished actor to the force-abort tracker.
    ForceAborted,
}

/// Values required to commit one actor's terminal cleanup.
#[verifier::reject_recursive_types(S)]
pub struct RemovalReport<S> {
    /// Identity of the removing registry entry.
    pub id: TaskId,
    /// Optional sender for a watched task outcome.
    pub outcome: Option<OutcomeTx<S>>,
    /// Result produced while removing the actor.
    pub join: JoinCompletion<S>,
    /// Latch pair of the removal.
    pub completion: RemovalCompletion,
    /// User values of the task.
    pub cleanup: DropBundle<S>,
}

/// Public outcome of an actor result.
pub open spec fn outcome_for<S>(result: ActorResult<S>) -> TaskOutcome<S> {
    match result {
        Ok(ActorExitReason::Completed) => TaskOutcome::Completed,
        Ok(ActorExitReason::Canceled) => TaskOutcome::Canceled,
        Ok(ActorExitReason::Panicked { .. }) => TaskOutcome::Panicked,
        Ok(ActorExitReason::Exhausted { reason, exit_code, source }) => TaskOutcome::Failed {
            reason,
            exit_code,
            source,
        },
        Ok(ActorExitReason::Fatal { reason, exit_code, source }) => TaskOutcome::Fatal {
            reason,
            exit_code,
            source,
        },
        Err(ActorJoinError::Panicked { .. }) => TaskOutcome::Panicked,
        Err(ActorJoinError::Aborted) => TaskOutcome::ForceAborted,
    }
}

/// Whether an actor result says that destroying a user value panicked.
pub open spec fn poisons<S>(result: ActorResult<S>) -> bool {
    match result {
        Ok(ActorExitReason::Panicked { cleanup_poisoned }) => cleanup_poisoned,
        Err(ActorJoinError::Panicked { cleanup_poisoned }) => cleanup_poisoned,
        _ => false,
    }
}

/// Bundle after an actor result was classified.
pub open spec fn classified_bundle<S>(bundle: DropBundle<S>, poison: bool) -> DropBundle<S> {
    DropBundle { poisoned: bundle.poisoned || poison, ..bundle }
}

/// Maps an actor join result to its public terminal outcome.
pub fn outcome_of<S>(result: ActorResult<S>, cleanup: &mut DropBundle<S>) -> (outcome: TaskOutcome<
    S,
>)
    ensures
        outcome == outcome_for(result),
        *final(cleanup) == classified_bundle(*old(cleanup), poisons(result)),
{
    match result {
        Ok(ActorExitReason::Completed) => TaskOutcome::Completed,
        Ok(ActorExitReason::Canceled) => TaskOutcome::Canceled,
        Ok(ActorExitReason::Panicked { cleanup_poisoned }) => {
            if cleanup_poisoned {
                cleanup.poison();
            }
            TaskOutcome::Panicked
        },
        Ok(ActorExitReason::Exhausted { reason, exit_code, source }) => TaskOutcome::Failed {
            reason,
            exit_code,
            source,
        },
        Ok(ActorExitReason::Fatal { reason, exit_code, source }) => TaskOutcome::Fatal {
            reason,
            exit_code,
            source,
        },
        Err(error) => {
            if error.is_panic() {
                if error.cleanup_poisoned() {
                    cleanup.poison();
                }
                TaskOutcome::Panicked
            } else {
                TaskOutcome::ForceAborted
            }
        },
    }
}

/// Keeps an outcome until its watched channel accepts it.
#[derive(Debug)]
pub struct OutcomeDropGuard<S> {
    /// Outcome retained until it is delivered.
    pub outcome: Option<TaskOutcome<S>>,
    /// Bundle used when the outcome cannot be delivered.
    pub cleanup: DropBundle<S>,
}

impl<S> OutcomeDropGuard<S> {
    /// Guard for one classified terminal outcome.
    pub fn new(outcome: TaskOutcome<S>, cleanup: DropBundle<S>) -> (guard: OutcomeDropGuard<S>)
        ensures
            guard == (OutcomeDropGuard { outcome: Some(outcome), cleanup }),
    {
        OutcomeDropGuard { outcome: Some(outcome), cleanup }
    }

    /// Borrows the outcome while the guard retains ownership.
    pub fn get(&self) -> (outcome: &TaskOutcome<S>)
        requires
            self.outcome is Some,
        ensures
            Some(*outcome) == self.outcome,
    {
        self.outcome.as_ref().unwrap()
    }

    /// Hands the outcome to its watched channel, at most once.
    pub fn take(&mut self) -> (outcome: TaskOutcome<S>)
        requires
            old(self).outcome is Some,
        ensures
            Some(outcome) == old(self).outcome,
            *final(self) == (OutcomeDropGuard { outcome: None, ..*old(self) }),
    {
        self.outcome.take().unwrap()
    }

    /// Gives the bundle back, with the outcome if the guard still holds it.
    pub fn release(self) -> (cleanup: DropBundle<S>)
        ensures
            retained_bundle(cleanup, self.cleanup, self.outcome),
    {
        let mut cleanup = self.cleanup;
        attach_undelivered(self.outcome, &mut cleanup);
        cleanup
    }
}

/// Reason carried by the terminal event of an outcome.
pub open spec fn finish_reason<S>(outcome: TaskOutcomeView<S>) -> Option<Seq<char>> {
    match outcome {
        TaskOutcomeView::Failed { reason, .. } => Some(reason),
        TaskOutcomeView::Fatal { reason, .. } => Some(reason),
        TaskOutcomeView::ForceAborted => Some(FORCE_ABORTED@),
        TaskOutcomeView::Panicked => Some(RUNNER_PANICKED@),
        _ => None,
    }
}

/// Exit code carried by the terminal event of an outcome.
pub open spec fn finish_exit_code<S>(outcome: TaskOutcomeView<S>) -> Option<i32> {
    match outcome {
        TaskOutcomeView::Failed { exit_code, .. } => exit_code,
        TaskOutcomeView::Fatal { exit_code, .. } => exit_code,
        _ => None,
    }
}

/// Terminal event of a task.
pub open spec fn finished_event_view<S>(
    id: TaskId,
    name: Seq<char>,
    outcome: TaskOutcomeView<S>,
) -> EventView {
    EventView {
        outcome: Some(outcome.kind()),
        reason: finish_reason(outcome),
        exit_code: finish_exit_code(outcome),
        ..task_event(EventKind::TaskFinished, id, name)
    }
}

/// Terminal event of a task.
///
/// Event and watcher use the same classification.
pub fn finished_event<S>(id: TaskId, name: &String, outcome: &TaskOutcome<S>) -> (event: Event)
    ensures
        event@ == finished_event_view(id, name@, outcome@),
{
    let finished = Event::new(EventKind::TaskFinished).with_task(name.as_str()).with_id(
        id,
    ).with_outcome_kind(outcome.kind());
    match outcome {
        TaskOutcome::Failed { reason, exit_code, .. } => {
            let finished = finished.with_reason(reason.as_str());
            match exit_code {
                Some(code) => finished.with_exit_code(*code),
                None => finished,
            }
        },
        TaskOutcome::Fatal { reason, exit_code, .. } => {
            let finished = finished.with_reason(reason.as_str());
            match exit_code {
                Some(code) => finished.with_exit_code(*code),
                None => finished,
            }
        },
        TaskOutcome::ForceAborted => finished.with_reason(FORCE_ABORTED),
        TaskOutcome::Panicked => finished.with_reason(RUNNER_PANICKED),
        TaskOutcome::Completed => finished,
        TaskOutcome::Canceled => finished,
        TaskOutcome::Rejected { .. } => finished,
    }
}

/// One terminal report until registry membership is removed.
///
/// A commit that is interrupted can be continued once. Physical ownership remains retained if no
/// runtime can run that continuation.
#[verifier::reject_recursive_types(S)]
pub struct PendingTerminalReport<S> {
    /// Identity whose removing entry must be committed.
    pub id: TaskId,
    /// Classified terminal outcome awaiting delivery.
    pub outcome: Option<TaskOutcome<S>>,
    /// Optional watched outcome sender.
    pub done: Option<OutcomeTx<S>>,
    /// User values and reserved capacity awaiting isolated destruction.
    pub cleanup: Option<DropBundle<S>>,
    /// Two-phase completion for this removal.
    pub completion: RemovalCompletion,
    /// Whether an interruption continues the commit.
    pub detach_on_drop: bool,
}

/// Report of a removal before its commit.
pub open spec fn classified<S>(report: RemovalReport<S>) -> PendingTerminalReport<S> {
    PendingTerminalReport {
        id: report.id,
        outcome: Some(
            match report.join {
                JoinCompletion::Joined(result) => outcome_for(result),
                JoinCompletion::ForceAborted => TaskOutcome::ForceAborted,
            },
        ),
        done: report.outcome,
        cleanup: Some(
            match report.join {
                JoinCompletion::Joined(result) => classified_bundle(
                    report.cleanup,
                    poisons(result),
                ),
                JoinCompletion::ForceAborted => report.cleanup,
            },
        ),
        completion: report.completion,
        detach_on_drop: true,
    }
}

/// What becomes of a report whose commit was interrupted.
#[verifier::reject_recursive_types(S)]
pub enum Interruption<S> {
    /// Everything was handed over already.
    Finished,
    /// A detached task commits this report.
    Continue(PendingTerminalReport<S>),
    /// The user values go to the reaper; membership and logical completion stay pending.
    Retain,
}

/// Whether giving up a report leads to this, given whether a runtime can run a continuation.
pub open spec fn interrupted<S>(
    before: PendingTerminalReport<S>,
    runtime_available: bool,
    after: PendingTerminalReport<S>,
    interruption: Interruption<S>,
) -> bool {
    if before.cleanup is None {
        interruption is Finished && after == before
    } else if before.detach_on_drop && runtime_available {
        &&& interruption == Interruption::Continue(
            PendingTerminalReport { detach_on_drop: false, ..before },
        )
        &&& after == (PendingTerminalReport {
            outcome: None,
            done: None,
            cleanup: None,
            ..before
        })
    } else {
        interruption is Retain && after == before
    }
}

impl<S> PendingTerminalReport<S> {
    /// Whether the report still holds everything that a commit hands over.
    pub open spec fn whole(self) -> bool {
        self.outcome is Some && self.cleanup is Some
    }

    /// Classifies a removal report.
    pub fn classify(report: RemovalReport<S>) -> (pending: PendingTerminalReport<S>)
        ensures
            pending == classified(report),
            pending.whole(),
    {
        let mut cleanup = report.cleanup;
        let outcome = match report.join {
            JoinCompletion::Joined(result) => outcome_of(result, &mut cleanup),
            JoinCompletion::ForceAborted => TaskOutcome::ForceAborted,
        };
        PendingTerminalReport {
            id: report.id,
            outcome: Some(outcome),
            done: report.outcome,
            cleanup: Some(cleanup),
            completion: report.completion,
            detach_on_drop: true,
        }
    }

    /// Takes the outcome, sender, and cleanup bundle for terminal reporting.
    pub fn take(&mut self) -> (parts: (TaskOutcome<S>, Option<OutcomeTx<S>>, DropBundle<S>))
        requires
            old(self).whole(),
        ensures
            Some(parts.0) == old(self).outcome,
            parts.1 == old(self).done,
            Some(parts.2) == old(self).cleanup,
            *final(self) == (PendingTerminalReport {
                outcome: None,
                done: None,
                cleanup: None,
                ..*old(self)
            }),
    {
        (self.outcome.take().unwrap(), self.done.take(), self.cleanup.take().unwrap())
    }

    /// Moves an interrupted commit into a report that is not continued a second time.
    pub fn take_continuation(&mut self) -> (continuation: PendingTerminalReport<S>)
        ensures
            continuation == (PendingTerminalReport { detach_on_drop: false, ..*old(self) }),
            *final(self) == (PendingTerminalReport {
                outcome: None,
                done: None,
                cleanup: None,
                ..*old(self)
            }),
    {
        PendingTerminalReport {
            id: self.id,
            outcome: self.outcome.take(),
            done: self.done.take(),
            cleanup: self.cleanup.take(),
            completion: self.completion,
            detach_on_drop: false,
        }
    }

    /// Decides what becomes of a report that is given up, given where that happens.
    ///
    /// A report is continued at most once, and only where a runtime can run the continuation.
    pub fn interrupt_in(&mut self, runtime_available: bool) -> (interruption: Interruption<S>)
        ensures
            interrupted(*old(self), runtime_available, *final(self), interruption),
    {
        if self.cleanup.is_none() {
            return Interruption::Finished;
        }
        if self.detach_on_drop && runtime_available {
            return Interruption::Continue(self.take_continuation());
        }
        Interruption::Retain
    }

    /// Decides what becomes of a report that is given up here.
    ///
    /// Whether a Tokio runtime is active is up to the caller's context;
    /// [`interrupt_in`](Self::interrupt_in) says what follows.
    pub fn interrupt(&mut self) -> (interruption: Interruption<S>)
        ensures
            exists|active: bool| #[trigger]
                runtime_probed(active) && interrupted(
                    *old(self),
                    active,
                    *final(self),
                    interruption,
                ),
    {
        let active = tokio_runtime_active();
        proof {
            assert(runtime_probed(active));
        }
        self.interrupt_in(active)
    }

    /// Sends the outcome to the watcher and returns it when nobody received it.
    ///
    /// Nothing is returned when the outcome was delivered or handed over before. Whether somebody
    /// receives it is up to the watcher.
    pub fn deliver(&mut self) -> (undelivered: Option<TaskOutcome<S>>)
        ensures
            match old(self).outcome {
                None => undelivered is None && *final(self) == *old(self),
                Some(outcome) => {
                    &&& offered(old(self).done, outcome, undelivered)
                    &&& *final(self) == (PendingTerminalReport {
                        outcome: None,
                        done: None,
                        ..*old(self)
                    })
                },
            },
    {
        match self.outcome.take() {
            None => None,
            Some(outcome) => offer(self.done.take(), outcome),
        }
    }
}

/// Barriers that end with a removal.
#[derive(Clone, Copy, Debug)]
pub struct Barriers {
    /// Identity of the removed task.
    pub id: TaskId,
    /// Completion stored in the removing entry.
    pub state_completion: Option<RemovalCompletion>,
    /// Completion carried by the terminal report.
    pub report_completion: RemovalCompletion,
    /// Whether membership removal left the registry empty.
    pub is_empty: bool,
}

/// A removal whose membership is gone and which nobody was told of yet.
///
/// Reporting goes through three steps, each of which only the one before it gives access to:
/// [`announce`](Self::announce) the end, [`deliver`](AnnouncedRemoval::deliver) the outcome, and
/// [`finish`](AnnouncedRemoval::finish) the report. Only then the barriers can end.
#[verifier::reject_recursive_types(S)]
pub struct TerminalCommit<S> {
    name: String,
    outcome: TaskOutcome<S>,
    done: Option<OutcomeTx<S>>,
    cleanup: DropBundle<S>,
    barriers: Barriers,
}

/// Contents of a [`TerminalCommit`].
#[verifier::reject_recursive_types(S)]
pub struct CommitView<S> {
    /// Name that the task had.
    pub name: String,
    /// Classified terminal outcome.
    pub outcome: TaskOutcome<S>,
    /// Optional watched outcome sender.
    pub done: Option<OutcomeTx<S>>,
    /// User values of the task.
    pub cleanup: DropBundle<S>,
    /// Barriers that end with the removal.
    pub barriers: Barriers,
}

impl<S> View for TerminalCommit<S> {
    type V = CommitView<S>;

    closed spec fn view(&self) -> CommitView<S> {
        CommitView {
            name: self.name,
            outcome: self.outcome,
            done: self.done,
            cleanup: self.cleanup,
            barriers: self.barriers,
        }
    }
}

/// A removal whose end was announced.
#[verifier::reject_recursive_types(S)]
pub struct AnnouncedRemoval<S> {
    name: String,
    guard: OutcomeDropGuard<S>,
    done: Option<OutcomeTx<S>>,
    delivered: bool,
    barriers: Barriers,
}

/// Contents of an [`AnnouncedRemoval`].
#[verifier::reject_recursive_types(S)]
pub struct AnnouncedView<S> {
    /// Name that the task had.
    pub name: String,
    /// Outcome that nobody received, so far.
    pub outcome: Option<TaskOutcome<S>>,
    /// Watched outcome sender that was not used yet.
    pub done: Option<OutcomeTx<S>>,
    /// User values of the task.
    pub cleanup: DropBundle<S>,
    /// Whether the outcome was offered to the watcher.
    pub delivered: bool,
    /// Barriers that end with the removal.
    pub barriers: Barriers,
}

impl<S> View for AnnouncedRemoval<S> {
    type V = AnnouncedView<S>;

    closed spec fn view(&self) -> AnnouncedView<S> {
        AnnouncedView {
            name: self.name,
            outcome: self.guard.outcome,
            done: self.done,
            cleanup: self.guard.cleanup,
            delivered: self.delivered,
            barriers: self.barriers,
        }
    }
}

/// The tail of a removal. It comes from an [`AnnouncedRemoval`] alone.
#[derive(Debug)]
pub struct TerminalFinalizer<S> {
    barriers: Barriers,
    reported: Option<String>,
    terminal: DropBundle<S>,
}

/// Contents of a [`TerminalFinalizer`].
#[verifier::reject_recursive_types(S)]
pub struct TailView<S> {
    /// Barriers to end.
    pub barriers: Barriers,
    /// Name under which the removal is still to be announced, if its report went through.
    pub reported: Option<Seq<char>>,
    /// User values that the reaper takes over.
    pub terminal: DropBundle<S>,
}

impl<S> View for TerminalFinalizer<S> {
    type V = TailView<S>;

    closed spec fn view(&self) -> TailView<S> {
        TailView {
            barriers: self.barriers,
            reported: match self.reported {
                Some(name) => Some(name@),
                None => None,
            },
            terminal: self.terminal,
        }
    }
}

impl<S> TerminalFinalizer<S> {
    /// Identity of the removed task.
    pub fn id(&self) -> (id: TaskId)
        ensures
            id == self@.barriers.id,
    {
        self.barriers.id
    }
}

impl<S> TerminalCommit<S> {
    /// Announces the end of the task: the event is published before the outcome is delivered.
    pub fn announce(self) -> (announced: (Event, AnnouncedRemoval<S>))
        ensures
            announced.0@ == finished_event_view(self@.barriers.id, self@.name@, self@.outcome@),
            announced.1@ == (AnnouncedView {
                name: self@.name,
                outcome: Some(self@.outcome),
                done: self@.done,
                cleanup: self@.cleanup,
                delivered: false,
                barriers: self@.barriers,
            }),
    {
        let event = finished_event(self.barriers.id, &self.name, &self.outcome);
        let removal = AnnouncedRemoval {
            name: self.name,
            guard: OutcomeDropGuard::new(self.outcome, self.cleanup),
            done: self.done,
            delivered: false,
            barriers: self.barriers,
        };
        (event, removal)
    }
}

impl<S> AnnouncedRemoval<S> {
    /// Offers the outcome to the watcher. What nobody receives stays with the user values.
    ///
    /// Whether somebody receives it is up to the watcher.
    pub fn deliver(&mut self)
        requires
            !old(self)@.delivered,
            old(self)@.outcome is Some,
        ensures
            exists|left: Option<TaskOutcome<S>>| #[trigger]
                offered(old(self)@.done, old(self)@.outcome->0, left) && final(self)@ == (
                AnnouncedView { outcome: left, done: None, delivered: true, ..old(self)@ }),
    {
        let outcome = self.guard.take();
        let left = offer(self.done.take(), outcome);
        self.guard.outcome = left;
        self.delivered = true;
        proof {
            assert(offered(old(self)@.done, old(self)@.outcome->0, left));
            assert(self@ == (AnnouncedView {
                outcome: left,
                done: None,
                delivered: true,
                ..old(self)@
            }));
        }
    }

    /// Ends a report that went through. The tail publishes `TaskRemoved` before it ends any
    /// barrier.
    pub fn finish(self) -> (tail: TerminalFinalizer<S>)
        requires
            self@.delivered,
        ensures
            tail@.barriers == self@.barriers,
            tail@.reported == Some(self@.name@),
            retained_bundle(tail@.terminal, self@.cleanup, self@.outcome),
    {
        TerminalFinalizer {
            barriers: self.barriers,
            reported: Some(self.name),
            terminal: self.guard.release(),
        }
    }

    /// Ends a report that unwound. The barriers end all the same, without another event; an outcome
    /// that was not delivered stays with the user values.
    pub fn unwound(self) -> (tail: TerminalFinalizer<S>)
        ensures
            tail@.barriers == self@.barriers,
            tail@.reported is None,
            retained_bundle(tail@.terminal, self@.cleanup, self@.outcome),
    {
        TerminalFinalizer {
            barriers: self.barriers,
            reported: None,
            terminal: self.guard.release(),
        }
    }
}

/// Result of a terminal commit.
#[verifier::reject_recursive_types(S)]
pub enum Commit<S> {
    /// Membership was removed.
    Removed(TerminalCommit<S>),
    /// There was no removing entry: the report is stale.
    Stale(PendingTerminalReport<S>),
}

impl<S> RegistryView<S> {
    /// What the commit of a report hands on for reporting.
    pub open spec fn committed(self, report: PendingTerminalReport<S>) -> CommitView<S> {
        CommitView {
            name: self.state.entry(report.id).name,
            outcome: report.outcome->0,
            done: report.done,
            cleanup: report.cleanup->0,
            barriers: Barriers {
                id: report.id,
                state_completion: Some(self.state.entry(report.id).state->completion),
                report_completion: report.completion,
                is_empty: self.state.without(report.id).tasks.dom() == Set::<u64>::empty(),
            },
        }
    }

    /// After the tail of a removal.
    pub open spec fn finalized(self, tail: TailView<S>) -> RegistryView<S> {
        RegistryView {
            reaper: self.reaper.after_terminal(
                tail.barriers.id,
                tail.terminal,
                tail.barriers.releases(),
            ),
            pending: self.pending.finished(tail.barriers.id),
            ..self
        }
    }

    /// Effects of the tail of a removal: its last event comes first, then user values move on, and
    /// only then the waiters for pending removals, the logical latches, and the waiters for an
    /// empty registry wake, in this order.
    pub open spec fn final_effects(self, tail: TailView<S>) -> Seq<EffectView<S>> {
        let barriers = tail.barriers;
        let removed: Seq<EffectView<S>> = match tail.reported {
            Some(name) => seq![
                EffectView::Publish(task_event(EventKind::TaskRemoved, barriers.id, name)),
            ],
            None => seq![],
        };
        let handover = self.reaper.terminal_effects(
            barriers.id,
            tail.terminal,
            barriers.releases(),
        );
        let drained: Seq<EffectView<S>> = if self.pending.finished(barriers.id).drained() {
            seq![EffectView::JoinsDrained]
        } else {
            seq![]
        };
        let state_latch: Seq<EffectView<S>> = match barriers.state_completion {
            Some(completion) => seq![EffectView::CompleteLogical(completion)],
            None => seq![],
        };
        let empty: Seq<EffectView<S>> = if barriers.is_empty {
            seq![EffectView::RegistryEmpty]
        } else {
            seq![]
        };
        removed + handover + drained + state_latch + seq![
            EffectView::CompleteLogical(barriers.report_completion),
        ] + empty
    }
}

impl Barriers {
    /// Physical latches that wait for the user values.
    pub open spec fn releases(self) -> TerminalReleases {
        TerminalReleases { state: self.state_completion, report: self.report_completion }
    }
}

impl<S> Registry<S> {
    /// Removes membership of one removing entry.
    ///
    /// What is left to report is handed on: the waiters for the removal wake only in the tail,
    /// which comes after the report. A report whose entry is gone, or not claimed, is stale and
    /// changes nothing.
    pub fn commit(&mut self, report: PendingTerminalReport<S>) -> (commit: Commit<S>)
        requires
            old(self)@.valid(),
            report.whole(),
        ensures
            final(self)@.valid(),
            if old(self)@.state.is_removing(report.id) {
                &&& final(self)@ == (RegistryView {
                    state: old(self)@.state.without(report.id),
                    ..old(self)@
                })
                &&& commit matches Commit::Removed(removed) && removed@ == old(self)@.committed(
                    report,
                )
            } else {
                &&& final(self)@ == old(self)@
                &&& commit == Commit::Stale(report)
            },
    {
        match self.state.remove_removing(report.id) {
            None => Commit::Stale(report),
            Some((name, state_completion)) => {
                let mut report = report;
                let is_empty = self.state.is_empty();
                let (outcome, done, cleanup) = report.take();
                proof {
                    lemma_kept_phases_valid(old(self)@, self@);
                }
                Commit::Removed(
                    TerminalCommit {
                        name,
                        outcome,
                        done,
                        cleanup,
                        barriers: Barriers {
                            id: report.id,
                            state_completion: Some(state_completion),
                            report_completion: report.completion,
                            is_empty,
                        },
                    },
                )
            },
        }
    }

    /// Classifies a removal report and commits it.
    pub fn finish_removal(&mut self, report: RemovalReport<S>) -> (commit: Commit<S>)
        requires
            old(self)@.valid(),
        ensures
            final(self)@.valid(),
            if old(self)@.state.is_removing(report.id) {
                &&& final(self)@ == (RegistryView {
                    state: old(self)@.state.without(report.id),
                    ..old(self)@
                })
                &&& commit matches Commit::Removed(removed) && removed@ == old(self)@.committed(
                    classified(report),
                )
            } else {
                &&& final(self)@ == old(self)@
                &&& commit == Commit::Stale(classified(report))
            },
    {
        let report = PendingTerminalReport::classify(report);
        self.commit(report)
    }

    /// Transfers terminal ownership without completing registry barriers.
    ///
    /// `undelivered` is what [`PendingTerminalReport::deliver`] gave back. Returns whether the
    /// report still held user values.
    pub fn retain_terminal(
        &mut self,
        report: &mut PendingTerminalReport<S>,
        undelivered: Option<TaskOutcome<S>>,
        effects: &mut Vec<Effect<S>>,
    ) -> (held: bool)
        requires
            old(self)@.valid(),
        ensures
            final(self)@.valid(),
            held == (old(report).cleanup is Some),
            *final(report) == (PendingTerminalReport { cleanup: None, ..*old(report) }),
            match old(report).cleanup {
                Some(cleanup) => exists|bundle: DropBundle<S>|
                    {
                        &&& #[trigger] retained_bundle(bundle, cleanup, undelivered)
                        &&& final(self)@ == (RegistryView {
                            reaper: old(self)@.reaper.after_terminal(
                                old(report).id,
                                bundle,
                                TerminalReleases { state: None, report: old(report).completion },
                            ),
                            ..old(self)@
                        })
                        &&& effect_views(final(effects)@) == effect_views(old(effects)@) + old(
                            self,
                        )@.reaper.terminal_effects(
                            old(report).id,
                            bundle,
                            TerminalReleases { state: None, report: old(report).completion },
                        )
                    },
                None => final(self)@ == old(self)@ && final(effects)@ == old(effects)@,
            },
    {
        match report.cleanup.take() {
            None => false,
            Some(cleanup) => {
                let mut bundle = cleanup;
                attach_undelivered(undelivered, &mut bundle);
                proof {
                    assert(retained_bundle(bundle, cleanup, undelivered));
                }
                self.actors.attach_terminal(report.id, bundle, None, report.completion, effects);
                true
            },
        }
    }

    /// Completes a stale report.
    ///
    /// `undelivered` is what [`PendingTerminalReport::deliver`] gave back.
    pub fn finish_without_membership(
        &mut self,
        report: PendingTerminalReport<S>,
        undelivered: Option<TaskOutcome<S>>,
    ) -> (effects: Vec<Effect<S>>)
        requires
            old(self)@.valid(),
            !old(self)@.state.is_removing(report.id),
        ensures
            final(self)@.valid(),
            match report.cleanup {
                Some(cleanup) => exists|bundle: DropBundle<S>|
                    {
                        let tail = stale_tail(report.id, report.completion, bundle);
                        &&& #[trigger] retained_bundle(bundle, cleanup, undelivered)
                        &&& final(self)@ == old(self)@.finalized(tail)
                        &&& effect_views(effects@) == old(self)@.final_effects(tail)
                    },
                None => final(self)@ == old(self)@ && effects@ == Seq::<Effect<S>>::empty(),
            },
    {
        let mut effects: Vec<Effect<S>> = Vec::new();
        let mut report = report;
        let ghost held_cleanup = report.cleanup;
        let ghost id = report.id;
        let ghost completion = report.completion;
        if self.retain_terminal(&mut report, undelivered, &mut effects) {
            let ghost handed = effect_views(effects@);
            let drained = self.pending_joins.dec(report.id);
            if drained {
                effects.push(Effect::JoinsDrained);
            }
            effects.push(Effect::CompleteLogical(report.completion));
            proof {
                lemma_finished_valid(old(self)@, id, self@);
                let cleanup = held_cleanup->0;
                let bundle = choose|bundle: DropBundle<S>|
                    {
                        &&& #[trigger] retained_bundle(bundle, cleanup, undelivered)
                        &&& self@.reaper == old(self)@.reaper.after_terminal(
                            id,
                            bundle,
                            TerminalReleases { state: None, report: completion },
                        )
                        &&& handed == effect_views(Seq::<Effect<S>>::empty()) + old(
                            self,
                        )@.reaper.terminal_effects(
                            id,
                            bundle,
                            TerminalReleases { state: None, report: completion },
                        )
                    };
                let tail = stale_tail(id, completion, bundle);
                assert(effect_views(Seq::<Effect<S>>::empty()) =~= Seq::empty());
                assert(effect_views(effects@) =~= old(self)@.final_effects(tail));
                assert(self@ == old(self)@.finalized(tail));
            }
        }
        effects
    }

    /// Publishes the removal, transfers terminal ownership, and completes every logical barrier.
    pub fn finalize(&mut self, tail: TerminalFinalizer<S>) -> (effects: Vec<Effect<S>>)
        requires
            old(self)@.valid(),
            !old(self)@.state.is_removing(tail@.barriers.id),
        ensures
            final(self)@.valid(),
            final(self)@ == old(self)@.finalized(tail@),
            effect_views(effects@) == old(self)@.final_effects(tail@),
    {
        let mut effects: Vec<Effect<S>> = Vec::new();
        let ghost view = tail@;
        let barriers = tail.barriers;
        if let Some(name) = &tail.reported {
            effects.push(Effect::Publish(task_event_of(EventKind::TaskRemoved, barriers.id, name)));
        }
        self.actors.attach_terminal(
            barriers.id,
            tail.terminal,
            barriers.state_completion,
            barriers.report_completion,
            &mut effects,
        );
        let drained = self.pending_joins.dec(barriers.id);
        if drained {
            effects.push(Effect::JoinsDrained);
        }
        if let Some(completion) = barriers.state_completion {
            effects.push(Effect::CompleteLogical(completion));
        }
        effects.push(Effect::CompleteLogical(barriers.report_completion));
        if barriers.is_empty {
            effects.push(Effect::RegistryEmpty);
        }
        proof {
            lemma_finished_valid(old(self)@, barriers.id, self@);
            assert(effect_views(Seq::<Effect<S>>::empty()) =~= Seq::empty());
            assert(effect_views(effects@) =~= old(self)@.final_effects(view));
        }
        effects
    }
}

impl<S> Registry<S> {
    /// Gives up the handle of an entry outside the removal path.
    ///
    /// The actor goes to the reaper before its user values do, so that both meet there.
    pub fn discard_handle(&mut self, id: TaskId, handle: Handle<S>, active: bool) -> (effects: Vec<
        Effect<S>,
    >)
        requires
            old(self)@.valid(),
        ensures
            final(self)@.valid(),
            ({
                let releases = TerminalReleases { state: None, report: handle.completion };
                let reaper = reaper_after_abort(old(self)@.reaper, handle, active);
                &&& final(self)@ == (RegistryView {
                    reaper: reaper.after_terminal(id, handle.cleanup, releases),
                    ..old(self)@
                })
                &&& effect_views(effects@) == abort_effects(handle) + reaper.terminal_effects(
                    id,
                    handle.cleanup,
                    releases,
                ) + seq![EffectView::<S>::CompleteLogical(handle.completion)]
            }),
    {
        let mut effects: Vec<Effect<S>> = Vec::new();
        let ghost given = handle;
        let mut handle = handle;
        match handle.join.abort(&mut self.actors, active) {
            AbortPlan::Nothing => {},
            plan => {
                effects.push(Effect::Abort(plan));
            },
        }
        proof {
            assert(effect_views(effects@) =~= abort_effects(given));
        }
        self.actors.attach_terminal(id, handle.cleanup, None, handle.completion, &mut effects);
        effects.push(Effect::CompleteLogical(handle.completion));
        proof {
            let releases = TerminalReleases { state: None, report: given.completion };
            let reaper = reaper_after_abort(old(self)@.reaper, given, active);
            assert(effect_views(effects@) =~= abort_effects(given) + reaper.terminal_effects(
                id,
                given.cleanup,
                releases,
            ) + seq![EffectView::<S>::CompleteLogical(given.completion)]);
        }
        effects
    }
}

/// Tail of a report without a removing entry: it announces nothing and empties no registry.
pub open spec fn stale_tail<S>(
    id: TaskId,
    completion: RemovalCompletion,
    bundle: DropBundle<S>,
) -> TailView<S> {
    TailView {
        barriers: Barriers {
            id,
            state_completion: None,
            report_completion: completion,
            is_empty: false,
        },
        reported: None,
        terminal: bundle,
    }
}

/// The end of a removal comes in order: its outcome was offered before there is a tail with a
/// report, `TaskRemoved` is the first effect of that tail and its only event, and the pending
/// removal, the latches, and the empty registry are signalled after it.
pub proof fn law_a_removal_is_reported_before_it_ends<S>(view: RegistryView<S>, tail: TailView<S>)
    requires
        tail.reported is Some,
    ensures
        ({
            let effects = view.final_effects(tail);
            &&& effects.len() > 0
            &&& effects[0] == EffectView::<S>::Publish(
                task_event(EventKind::TaskRemoved, tail.barriers.id, tail.reported->0),
            )
            &&& forall|i: int|
                0 <= i < effects.len() && ends_removal(#[trigger] effects[i]) ==> i > 0
            &&& forall|i: int|
                0 < i < effects.len() ==> !(#[trigger] effects[i] is Publish)
        }),
{
    let effects = view.final_effects(tail);
    let handover = view.reaper.terminal_effects(
        tail.barriers.id,
        tail.terminal,
        tail.barriers.releases(),
    );
    lemma_handover_is_silent(
        view.reaper,
        tail.barriers.id,
        tail.terminal,
        tail.barriers.releases(),
    );
    assert forall|i: int| 0 < i < effects.len() implies !(#[trigger] effects[i] is Publish) by {
        if i <= handover.len() {
            assert(effects[i] == handover[i - 1]);
        }
    }
}

/// Whether an effect signals the end of a removal.
pub open spec fn ends_removal<S>(effect: EffectView<S>) -> bool {
    effect is JoinsDrained || effect is CompleteLogical || effect is CompletePhysical
        || effect is RegistryEmpty
}

/// Handing user values to the reaper publishes nothing.
proof fn lemma_handover_is_silent<S>(
    reaper: ReaperView<S>,
    id: TaskId,
    bundle: DropBundle<S>,
    releases: TerminalReleases,
)
    ensures
        forall|i: int|
            0 <= i < reaper.terminal_effects(id, bundle, releases).len() ==> !(
            #[trigger] reaper.terminal_effects(id, bundle, releases)[i] is Publish),
{
}

/// Bundle of a retained report: the cleanup bundle with an undelivered outcome added.
pub open spec fn retained_bundle<S>(
    bundle: DropBundle<S>,
    cleanup: DropBundle<S>,
    undelivered: Option<TaskOutcome<S>>,
) -> bool {
    &&& bundle.ticket == cleanup.ticket
    &&& bundle.output == cleanup.output
    &&& bundle.payload == cleanup.payload
    &&& bundle.poisoned == cleanup.poisoned
    &&& bundle.outcomes@ == kept_with(cleanup.outcomes@, undelivered)
}

/// Finishing an owner of a task that is not being removed keeps what the registry promises.
proof fn lemma_finished_valid<S>(before: RegistryView<S>, id: TaskId, after: RegistryView<S>)
    requires
        before.valid(),
        !before.state.is_removing(id),
        after.state == before.state,
        after.pending == before.pending.finished(id),
        after.pending.valid(),
    ensures
        after.valid(),
{
    assert forall|other: TaskId| #[trigger] after.state.is_removing(other) implies {
        &&& after.pending.owners(other) == 1
        &&& after.pending.names.contains_key(other.raw)
        &&& after.pending.names[other.raw] == after.state.entry(other).name
    } by {
        assert(before.state.is_removing(other));
        assert(other.raw != id.raw) by {
            if other.raw == id.raw {
                assert(other == id);
            }
        }
    }
    assert forall|other: TaskId| #[trigger] after.state.is_registered(other) implies
        after.pending.owners(other) == 0 by {
        assert(before.state.is_registered(other));
    }
}

} // verus!
