use std::time::Duration;

use taskvisor::config::NonZeroUsize;
use taskvisor::deferred_drop::DropBundle;
use taskvisor::error::RuntimeError;
use taskvisor::events::{Event, EventKind, RejectionKind};
use taskvisor::identity::TaskId;
use taskvisor::outcome::{
    ActorExitReason, ActorJoinError, ActorResult, TaskOutcome, TaskOutcomeKind,
};
use taskvisor::reasons;
use taskvisor::registry::actor::{AbortPlan, ScheduledActor};
use taskvisor::registry::admission::deliver_or_attach_rejection;
use taskvisor::registry::completion::RemovalCompletion;
use taskvisor::registry::effects::{Claim, Effect};
use taskvisor::registry::join::{join_turn, CompletionAction, JoinTurn};
use taskvisor::registry::protocol::{
    AddBatchItem, AddReply, CancelDecision, CancelReply, OwnedTask, RegistryCommand, RemoveReply,
};
use taskvisor::registry::terminal::{
    Commit, Interruption, JoinCompletion, PendingTerminalReport, RemovalReport, TerminalCommit,
    TerminalFinalizer,
};
use taskvisor::registry::Registry;
use taskvisor::task_defaults::TaskDefaults;
use taskvisor::tasks::TaskSpec;
use tokio::sync::oneshot;

type Source = String;

const GRACE: Duration = Duration::from_secs(1);

fn registry() -> Registry<Source> {
    Registry::new(GRACE, TaskDefaults::default(), None)
}

fn registry_with_limit(limit: usize) -> Registry<Source> {
    Registry::new(GRACE, TaskDefaults::default(), NonZeroUsize::new(limit))
}

fn owned(name: &str, ticket: u64) -> OwnedTask<Source> {
    OwnedTask {
        spec: TaskSpec::once(name.to_string()),
        cleanup: DropBundle::new(ticket),
    }
}

fn latch(number: u64) -> RemovalCompletion {
    RemovalCompletion::new(number)
}

fn add(registry: &mut Registry<Source>, id: u64, name: &str) -> Vec<Effect<Source>> {
    let (reply, _rx) = oneshot::channel::<AddReply>();
    let id = TaskId::new(id);
    assert!(registry.is_fresh(id));
    registry.spawn_and_register(
        id,
        name.to_string(),
        owned(name, id.get()),
        None,
        None,
        latch(id.get()),
        reply,
    )
}

fn batch_item(id: u64, name: &str) -> AddBatchItem<Source> {
    AddBatchItem {
        id: TaskId::new(id),
        name: name.to_string(),
        owned: owned(name, id),
        completion: latch(id),
    }
}

fn event(effect: &Effect<Source>) -> &Event {
    match effect {
        Effect::Publish(event) => event,
        _ => panic!("an event was expected"),
    }
}

fn add_reply(effect: &Effect<Source>) -> &AddReply {
    match effect {
        Effect::ReplyAdd(_, reply) => reply,
        _ => panic!("an add reply was expected"),
    }
}

fn remove_reply(effect: &Effect<Source>) -> bool {
    match effect {
        Effect::ReplyRemove(_, Ok(claimed)) => *claimed,
        _ => panic!("a remove reply was expected"),
    }
}

fn cancel_reply(effect: &Effect<Source>) -> Option<CancelDecision> {
    match effect {
        Effect::ReplyCancel(_, Ok(decision)) => *decision,
        _ => panic!("a cancel reply was expected"),
    }
}

fn joined_claim(effects: Vec<Effect<Source>>) -> Claim<Source> {
    for effect in effects {
        if let Effect::Join { claim, .. } = effect {
            return claim;
        }
    }
    panic!("a claimed actor was expected")
}

fn listed(registry: &Registry<Source>) -> Vec<(u64, String)> {
    registry
        .list()
        .into_iter()
        .map(|(id, name)| (id.get(), name))
        .collect()
}

fn report(commit: TerminalCommit<Source>) -> (Event, TerminalFinalizer<Source>) {
    let (finished, mut announced) = commit.announce();
    announced.deliver();
    (finished, announced.finish())
}

fn finish(
    registry: &mut Registry<Source>,
    claim: Claim<Source>,
    joined: Option<ActorResult<Source>>,
) -> (Event, Event, Vec<Effect<Source>>) {
    let resolved = registry.resolve_join(claim, joined, false);
    match registry.finish_removal(resolved.report) {
        Commit::Removed(commit) => {
            let (finished, tail) = report(commit);
            let mut effects = registry.finalize(tail);
            let removed = match effects.remove(0) {
                Effect::Publish(event) => event,
                _ => panic!("the removal is published before anything ends"),
            };
            assert_eq!(removed.kind, EventKind::TaskRemoved);
            (finished, removed, effects)
        }
        Commit::Stale(_) => panic!("the entry was removing"),
    }
}

#[test]
fn accepted_task_is_indexed_announced_answered_and_started_in_that_order() {
    let mut registry = registry();
    let effects = add(&mut registry, 7, "worker");

    assert_eq!(effects.len(), 4);
    let added = event(&effects[0]);
    assert_eq!(added.kind, EventKind::TaskAdded);
    assert_eq!(added.task.as_deref(), Some("worker"));
    assert_eq!(added.id, Some(TaskId::new(7)));
    assert!(add_reply(&effects[1]).is_ok());
    assert!(matches!(&effects[2], Effect::Schedule(actor) if actor.id == TaskId::new(7)));
    assert!(matches!(&effects[3], Effect::OpenStartGate));

    assert!(registry.contains(TaskId::new(7)));
    assert_eq!(registry.id_for_name("worker"), Some(TaskId::new(7)));
    assert!(!registry.is_empty());
    assert_eq!(listed(&registry), vec![(7, String::from("worker"))]);
}

#[test]
fn duplicate_name_is_refused_with_its_reason_and_changes_nothing() {
    let mut registry = registry();
    let _ = add(&mut registry, 1, "worker");

    let (done, mut outcome) = oneshot::channel();
    let (reply, _rx) = oneshot::channel();
    let effects = registry.spawn_and_register(
        TaskId::new(2),
        String::from("worker"),
        owned("worker", 2),
        Some(done),
        None,
        latch(2),
        reply,
    );
    assert_eq!(effects.len(), 3);
    assert!(matches!(
        add_reply(&effects[0]),
        Err(RuntimeError::TaskAlreadyExists { name }) if name == "worker"
    ));
    let failed = event(&effects[2]);
    assert_eq!(failed.kind, EventKind::TaskAddFailed);
    assert_eq!(failed.rejection, Some(RejectionKind::AlreadyExists));
    assert_eq!(failed.reason.as_deref(), Some(reasons::ALREADY_EXISTS));
    assert_eq!(failed.id, Some(TaskId::new(2)));
    assert_eq!(listed(&registry), vec![(1, String::from("worker"))]);

    let mut effects = effects;
    match effects.remove(1) {
        Effect::Settle {
            done,
            outcome: refused,
            mut cleanup,
        } => {
            deliver_or_attach_rejection(done, refused, &mut cleanup);
            assert!(cleanup.outcomes.is_empty(), "a live watcher takes the refusal");
        }
        _ => panic!("a settlement was expected"),
    }
    assert!(matches!(
        outcome.try_recv(),
        Ok(TaskOutcome::Rejected {
            kind: RejectionKind::AlreadyExists,
            ..
        })
    ));
}

#[test]
fn refusal_without_watcher_stays_with_the_user_values() {
    let mut cleanup: DropBundle<Source> = DropBundle::new(9);
    deliver_or_attach_rejection(
        None,
        TaskOutcome::Rejected {
            kind: RejectionKind::ResourceLimit,
            reason: String::from("full"),
        },
        &mut cleanup,
    );
    assert_eq!(cleanup.outcomes.len(), 1);

    let (done, outcome) = oneshot::channel();
    drop(outcome);
    deliver_or_attach_rejection(Some(done), TaskOutcome::Canceled, &mut cleanup);
    assert_eq!(cleanup.outcomes.len(), 2, "a lost watcher leaves the outcome");
    assert_eq!(cleanup.outcomes[1].kind(), TaskOutcomeKind::Canceled);
}

#[test]
fn registration_limit_refuses_a_single_add_with_the_limit() {
    let mut registry = registry_with_limit(1);
    let _ = add(&mut registry, 1, "first");
    let effects = add(&mut registry, 2, "second");
    assert!(matches!(
        add_reply(&effects[0]),
        Err(RuntimeError::ResourceLimitReached {
            resource: "registered_tasks",
            limit: 1
        })
    ));
    let failed = event(&effects[2]);
    assert_eq!(failed.rejection, Some(RejectionKind::ResourceLimit));
    assert_eq!(
        failed.reason.as_deref(),
        Some(format!("{}: 1", reasons::REGISTERED_TASK_LIMIT).as_str())
    );
    assert_eq!(listed(&registry), vec![(1, String::from("first"))]);
}

#[test]
fn batch_with_repeated_name_is_refused_item_by_item() {
    let mut registry = registry();
    let (reply, _rx) = oneshot::channel();
    let items = vec![
        batch_item(1, "unique"),
        batch_item(2, "duplicate"),
        batch_item(3, "duplicate"),
    ];
    assert!(registry.is_fresh_batch(&items));
    let effects = registry.spawn_and_register_batch(items, reply);

    let reasons_seen: Vec<&str> = effects[..3]
        .iter()
        .map(|effect| event(effect).reason.as_deref().unwrap())
        .collect();
    assert_eq!(
        reasons_seen,
        vec![
            reasons::BATCH_REJECTED,
            reasons::BATCH_REJECTED,
            reasons::ALREADY_EXISTS
        ]
    );
    assert_eq!(
        event(&effects[2]).rejection,
        Some(RejectionKind::AlreadyExists)
    );
    assert_eq!(
        event(&effects[0]).rejection,
        Some(RejectionKind::BatchRejected)
    );
    assert!(matches!(
        add_reply(&effects[3]),
        Err(RuntimeError::TaskAlreadyExists { name }) if name == "duplicate"
    ));
    let tickets: Vec<u64> = effects[4..]
        .iter()
        .map(|effect| match effect {
            Effect::Submit(bundle) => bundle.ticket,
            _ => panic!("refused user values are submitted"),
        })
        .collect();
    assert_eq!(tickets, vec![1, 2, 3]);
    assert!(registry.is_empty());
}

#[test]
fn batch_conflicts_with_registered_and_removing_names() {
    let mut registry = registry();
    let _ = add(&mut registry, 1, "taken");
    let (reply, _rx) = oneshot::channel::<RemoveReply>();
    let _claim = joined_claim(registry.remove_task(TaskId::new(1), reply));

    let (reply, _rx) = oneshot::channel();
    let effects =
        registry.spawn_and_register_batch(vec![batch_item(2, "new"), batch_item(3, "taken")], reply);
    assert!(matches!(
        add_reply(&effects[2]),
        Err(RuntimeError::TaskAlreadyExists { name }) if name == "taken"
    ));
    assert_eq!(listed(&registry), vec![(1, String::from("taken"))]);
}

#[test]
fn batch_beyond_the_limit_is_refused_as_a_whole() {
    let mut registry = registry_with_limit(1);
    let (reply, _rx) = oneshot::channel();
    let effects =
        registry.spawn_and_register_batch(vec![batch_item(1, "a"), batch_item(2, "b")], reply);
    assert_eq!(
        event(&effects[1]).reason.as_deref(),
        Some(format!("{}: 0/1", reasons::REGISTERED_TASK_LIMIT).as_str())
    );
    assert!(matches!(
        add_reply(&effects[2]),
        Err(RuntimeError::ResourceLimitReached {
            resource: "registered_tasks",
            limit: 1
        })
    ));
    assert!(registry.is_empty());
}

#[test]
fn accepted_batch_indexes_every_item_before_any_effect() {
    let mut registry = registry_with_limit(2);
    let (reply, _rx) = oneshot::channel();
    let command = RegistryCommand::AddBatch {
        items: vec![batch_item(5, "b"), batch_item(4, "a")],
        reply,
    };
    assert!(registry.accepts(&command));
    let effects = registry.handle_command(command);

    assert_eq!(event(&effects[0]).task.as_deref(), Some("b"));
    assert_eq!(event(&effects[1]).task.as_deref(), Some("a"));
    assert!(add_reply(&effects[2]).is_ok());
    assert!(matches!(&effects[3], Effect::Schedule(actor) if actor.id == TaskId::new(5)));
    assert!(matches!(&effects[4], Effect::Schedule(actor) if actor.id == TaskId::new(4)));
    assert!(matches!(&effects[5], Effect::OpenStartGate));
    assert_eq!(effects.len(), 6);
    assert_eq!(
        listed(&registry),
        vec![(4, String::from("a")), (5, String::from("b"))]
    );
}

#[test]
fn used_identities_are_not_accepted_again() {
    let mut registry = registry();
    let _ = add(&mut registry, 1, "a");
    let (reply, _rx) = oneshot::channel();
    assert!(!registry.accepts(&RegistryCommand::Add {
        id: TaskId::new(1),
        name: String::from("b"),
        owned: owned("b", 2),
        outcome: None,
        completion: None,
        fresh: latch(2),
        reply,
    }));
    assert!(!registry.is_fresh_batch(&vec![batch_item(3, "x"), batch_item(3, "y")]));
    assert!(!registry.is_fresh_batch(&vec![batch_item(3, "x"), batch_item(1, "y")]));
}

#[test]
fn remove_claims_once_and_keeps_membership_until_commit() {
    let mut registry = registry();
    let _ = add(&mut registry, 1, "worker");

    let (reply, _rx) = oneshot::channel::<RemoveReply>();
    let effects = registry.remove_task(TaskId::new(1), reply);
    assert!(matches!(&effects[0], Effect::CancelActor(id) if *id == TaskId::new(1)));
    assert!(remove_reply(&effects[1]));
    assert!(matches!(
        &effects[2],
        Effect::Join { force_after, .. } if *force_after == Some(GRACE)
    ));
    let claim = joined_claim(effects);
    assert_eq!(claim.name, "worker");
    assert_eq!(claim.completion, latch(1));

    let (reply, _rx) = oneshot::channel::<RemoveReply>();
    let again = registry.remove_task(TaskId::new(1), reply);
    assert_eq!(again.len(), 1);
    assert!(!remove_reply(&again[0]));
    assert!(registry.contains(TaskId::new(1)));
    assert!(registry.name_taken(&String::from("worker")));
    assert_eq!(registry.wait_joins_within(), vec![String::from("worker")]);

    let (finished, removed, effects) =
        finish(&mut registry, claim, Some(Ok(ActorExitReason::Completed)));
    assert_eq!(finished.kind, EventKind::TaskFinished);
    assert_eq!(finished.outcome, Some(TaskOutcomeKind::Completed));
    assert_eq!(finished.reason, None);
    assert_eq!(removed.kind, EventKind::TaskRemoved);
    assert!(matches!(&effects[0], Effect::Submit(bundle) if bundle.ticket == 1));
    assert!(registry.is_empty());
    assert!(registry.wait_joins_within().is_empty());
    assert!(registry.is_fresh(TaskId::new(1)));
    assert!(!registry.name_taken(&String::from("worker")));
}

#[test]
fn unknown_remove_replies_false_without_event() {
    let mut registry = registry();
    let (reply, _rx) = oneshot::channel::<RemoveReply>();
    let effects = registry.remove_task(TaskId::new(9), reply);
    assert_eq!(effects.len(), 1);
    assert!(!remove_reply(&effects[0]));

    let (reply, _rx) = oneshot::channel::<RemoveReply>();
    let effects = registry.remove_task_by_name(String::from("nobody"), reply);
    assert_eq!(effects.len(), 1);
    assert!(!remove_reply(&effects[0]));
}

#[test]
fn remove_by_name_announces_every_request_for_a_known_name() {
    let mut registry = registry();
    let _ = add(&mut registry, 1, "worker");
    for expected in [true, false] {
        let (reply, _rx) = oneshot::channel::<RemoveReply>();
        let effects = registry.handle_command(RegistryCommand::RemoveByName {
            name: String::from("worker"),
            reply,
        });
        let requested = event(&effects[0]);
        assert_eq!(requested.kind, EventKind::TaskRemoveRequested);
        assert_eq!(requested.task.as_deref(), Some("worker"));
        assert_eq!(requested.id, Some(TaskId::new(1)));
        assert_eq!(requested.reason, None);
        let reply = if expected { &effects[2] } else { &effects[1] };
        assert_eq!(remove_reply(reply), expected);
    }
}

#[test]
fn concurrent_cancels_share_one_completion() {
    let mut registry = registry();
    let _ = add(&mut registry, 1, "worker");

    let (reply, _rx) = oneshot::channel::<CancelReply>();
    let first = registry.cancel_task(TaskId::new(1), reply);
    let requested = event(&first[0]);
    assert_eq!(requested.kind, EventKind::TaskRemoveRequested);
    assert_eq!(requested.reason.as_deref(), Some("manual_cancel"));
    assert_eq!(requested.task, None);
    let decision = cancel_reply(&first[2]).unwrap();
    assert!(decision.claimed);

    let (reply, _rx) = oneshot::channel::<CancelReply>();
    let second = registry.cancel_task_by_name(String::from("worker"), reply);
    assert_eq!(event(&second[0]).task.as_deref(), Some("worker"));
    let joined = cancel_reply(&second[1]).unwrap();
    assert!(!joined.claimed);
    assert_eq!(joined.completion, decision.completion);
    assert_eq!(joined.id, decision.id);
}

#[test]
fn cancel_of_a_stranger_is_answered_none() {
    let mut registry = registry();
    let (reply, _rx) = oneshot::channel::<CancelReply>();
    let effects = registry.handle_command(RegistryCommand::Cancel {
        id: TaskId::new(1),
        reply,
    });
    assert_eq!(effects.len(), 1);
    assert!(cancel_reply(&effects[0]).is_none());

    let (reply, _rx) = oneshot::channel::<CancelReply>();
    let effects = registry.handle_command(RegistryCommand::CancelByName {
        name: String::from("nobody"),
        reply,
    });
    assert_eq!(effects.len(), 1);
    assert!(cancel_reply(&effects[0]).is_none());
}

#[test]
fn commit_tail_wakes_waiters_after_the_user_values_moved_on() {
    let mut registry = registry();
    let _ = add(&mut registry, 1, "worker");
    let (reply, _rx) = oneshot::channel::<RemoveReply>();
    let claim = joined_claim(registry.remove_task(TaskId::new(1), reply));
    let (_, _, effects) = finish(&mut registry, claim, Some(Ok(ActorExitReason::Canceled)));

    assert!(matches!(&effects[0], Effect::Submit(_)));
    assert!(matches!(&effects[1], Effect::CompletePhysical(c) if *c == latch(1)));
    assert!(matches!(&effects[2], Effect::CompletePhysical(c) if *c == latch(1)));
    assert!(matches!(&effects[3], Effect::JoinsDrained));
    assert!(matches!(&effects[4], Effect::CompleteLogical(c) if *c == latch(1)));
    assert!(matches!(&effects[5], Effect::CompleteLogical(c) if *c == latch(1)));
    assert!(matches!(&effects[6], Effect::RegistryEmpty));
    assert_eq!(effects.len(), 7);
}

#[test]
fn watcher_receives_the_outcome_that_the_event_reports() {
    let mut registry = registry();
    let (done, mut watched) = oneshot::channel();
    let (reply, _rx) = oneshot::channel();
    let _ = registry.spawn_and_register(
        TaskId::new(1),
        String::from("worker"),
        owned("worker", 1),
        Some(done),
        Some(latch(40)),
        latch(1),
        reply,
    );
    let (reply, _rx) = oneshot::channel::<RemoveReply>();
    let claim = joined_claim(registry.remove_task(TaskId::new(1), reply));
    assert_eq!(claim.completion, latch(40), "the caller's latch is kept");
    let (finished, _, effects) = finish(
        &mut registry,
        claim,
        Some(Ok(ActorExitReason::Exhausted {
            reason: String::from("out of retries"),
            exit_code: Some(3),
            source: Some(String::from("disk")),
        })),
    );
    assert_eq!(finished.outcome, Some(TaskOutcomeKind::Failed));
    assert_eq!(finished.reason.as_deref(), Some("out of retries"));
    assert_eq!(finished.exit_code, Some(3));
    match watched.try_recv() {
        Ok(TaskOutcome::Failed {
            reason,
            exit_code,
            source,
        }) => {
            assert_eq!(reason, "out of retries");
            assert_eq!(exit_code, Some(3));
            assert_eq!(source.as_deref(), Some("disk"));
        }
        _ => panic!("the watcher receives the failure"),
    }
    assert!(matches!(&effects[0], Effect::Submit(bundle) if bundle.outcomes.is_empty()));
}

#[test]
fn every_actor_result_has_its_outcome() {
    let cases: Vec<(ActorResult<Source>, TaskOutcomeKind, bool)> = vec![
        (
            Ok(ActorExitReason::Completed),
            TaskOutcomeKind::Completed,
            false,
        ),
        (
            Ok(ActorExitReason::Canceled),
            TaskOutcomeKind::Canceled,
            false,
        ),
        (
            Ok(ActorExitReason::Panicked {
                cleanup_poisoned: true,
            }),
            TaskOutcomeKind::Panicked,
            true,
        ),
        (
            Ok(ActorExitReason::Fatal {
                reason: String::from("x"),
                exit_code: None,
                source: None,
            }),
            TaskOutcomeKind::Fatal,
            false,
        ),
        (
            Err(ActorJoinError::Panicked {
                cleanup_poisoned: true,
            }),
            TaskOutcomeKind::Panicked,
            true,
        ),
        (
            Err(ActorJoinError::Panicked {
                cleanup_poisoned: false,
            }),
            TaskOutcomeKind::Panicked,
            false,
        ),
        (
            Err(ActorJoinError::Aborted),
            TaskOutcomeKind::ForceAborted,
            false,
        ),
    ];
    for (result, kind, poisoned) in cases {
        let report = PendingTerminalReport::classify(RemovalReport {
            id: TaskId::new(1),
            outcome: None,
            join: JoinCompletion::Joined(result),
            completion: latch(1),
            cleanup: DropBundle::new(1),
        });
        assert_eq!(report.outcome.as_ref().map(TaskOutcome::kind), Some(kind));
        assert_eq!(report.cleanup.as_ref().map(|c| c.poisoned), Some(poisoned));
    }
}

#[test]
fn join_errors_tell_panic_from_abort() {
    let poisoned = ActorJoinError::Panicked {
        cleanup_poisoned: true,
    };
    let clean = ActorJoinError::Panicked {
        cleanup_poisoned: false,
    };
    assert!(poisoned.is_panic() && poisoned.cleanup_poisoned() && !poisoned.is_cancelled());
    assert!(clean.is_panic() && !clean.cleanup_poisoned());
    assert!(ActorJoinError::Aborted.is_cancelled() && !ActorJoinError::Aborted.is_panic());
}

#[test]
fn terminal_events_explain_aborts_and_panics() {
    let mut registry = registry();
    for (id, joined, reason) in [
        (1, None, reasons::FORCE_ABORTED),
        (
            2,
            Some(Err(ActorJoinError::Panicked {
                cleanup_poisoned: false,
            })),
            reasons::RUNNER_PANICKED,
        ),
    ] {
        let _ = add(&mut registry, id, "worker");
        let (reply, _rx) = oneshot::channel::<RemoveReply>();
        let claim = joined_claim(registry.remove_task(TaskId::new(id), reply));
        let (finished, _, _) = finish(&mut registry, claim, joined);
        assert_eq!(finished.reason.as_deref(), Some(reason));
    }
    assert_eq!(
        reasons::FORCE_ABORTED,
        "task did not stop within grace; force-aborted"
    );
    assert_eq!(reasons::RUNNER_PANICKED, "internal task runner panicked");
}

#[test]
fn stale_report_changes_no_membership() {
    let mut registry = registry();
    let _ = add(&mut registry, 1, "worker");
    let report = RemovalReport {
        id: TaskId::new(1),
        outcome: None,
        join: JoinCompletion::ForceAborted,
        completion: latch(8),
        cleanup: DropBundle::new(5),
    };
    let mut stale = match registry.finish_removal(report) {
        Commit::Stale(report) => report,
        Commit::Removed(_) => panic!("a registered entry is not removed"),
    };
    let undelivered = stale.deliver();
    assert!(matches!(undelivered, Some(TaskOutcome::ForceAborted)));
    let effects = registry.finish_without_membership(stale, undelivered);
    assert!(matches!(
        &effects[0],
        Effect::Submit(bundle) if bundle.ticket == 5 && bundle.outcomes.len() == 1
    ));
    assert!(matches!(&effects[1], Effect::CompletePhysical(c) if *c == latch(8)));
    assert!(matches!(
        effects.last(),
        Some(Effect::CompleteLogical(c)) if *c == latch(8)
    ));
    assert!(registry.contains(TaskId::new(1)));
}

#[test]
fn interrupted_commit_is_continued_once_and_then_retained() {
    let mut report: PendingTerminalReport<Source> =
        PendingTerminalReport::classify(RemovalReport {
            id: TaskId::new(1),
            outcome: None,
            join: JoinCompletion::ForceAborted,
            completion: latch(1),
            cleanup: DropBundle::new(1),
        });
    let mut continuation = match report.interrupt_in(true) {
        Interruption::Continue(continuation) => continuation,
        _ => panic!("the first interruption continues"),
    };
    assert!(matches!(report.interrupt_in(true), Interruption::Finished));
    assert!(matches!(continuation.interrupt_in(true), Interruption::Retain));

    assert!(
        matches!(continuation.interrupt(), Interruption::Retain),
        "a continuation is not continued again"
    );

    let mut registry = registry();
    let mut effects = Vec::new();
    let undelivered = continuation.deliver();
    assert!(registry.retain_terminal(&mut continuation, undelivered, &mut effects));
    assert!(matches!(&effects[0], Effect::Submit(_)));
    assert!(!effects
        .iter()
        .any(|effect| matches!(effect, Effect::CompleteLogical(_))));
    assert!(!registry.retain_terminal(&mut continuation, None, &mut effects));
}

#[test]
fn interrupted_commit_outside_tokio_is_retained() {
    let report = || -> PendingTerminalReport<Source> {
        PendingTerminalReport::classify(RemovalReport {
            id: TaskId::new(1),
            outcome: None,
            join: JoinCompletion::ForceAborted,
            completion: latch(1),
            cleanup: DropBundle::new(1),
        })
    };
    assert!(matches!(report().interrupt(), Interruption::Retain));
    let runtime = tokio::runtime::Builder::new_current_thread()
        .build()
        .unwrap();
    runtime.block_on(async {
        assert!(matches!(report().interrupt(), Interruption::Continue(_)));
    });
}

fn committed(
    registry: &mut Registry<Source>,
    done: Option<oneshot::Sender<TaskOutcome<Source>>>,
) -> TerminalCommit<Source> {
    let _ = add(registry, 1, "worker");
    let _ = registry.claim_task(TaskId::new(1)).unwrap();
    match registry.finish_removal(RemovalReport {
        id: TaskId::new(1),
        outcome: done,
        join: JoinCompletion::ForceAborted,
        completion: latch(2),
        cleanup: DropBundle::new(9),
    }) {
        Commit::Removed(commit) => commit,
        Commit::Stale(_) => panic!("the entry was removing"),
    }
}

#[test]
fn unwound_report_still_ends_every_barrier() {
    let mut registry = registry();
    let (done, mut outcome) = oneshot::channel();
    let (_, announced) = committed(&mut registry, Some(done)).announce();
    let effects = registry.finalize(announced.unwound());
    assert!(outcome.try_recv().is_err(), "nothing was delivered");
    assert!(matches!(
        &effects[0],
        Effect::Submit(bundle) if bundle.ticket == 9 && bundle.outcomes.len() == 1
    ));
    assert!(matches!(&effects[1], Effect::CompletePhysical(c) if *c == latch(1)));
    assert!(matches!(&effects[2], Effect::CompletePhysical(c) if *c == latch(2)));
    assert!(matches!(&effects[3], Effect::JoinsDrained));
    assert!(matches!(&effects[4], Effect::CompleteLogical(c) if *c == latch(1)));
    assert!(matches!(&effects[5], Effect::CompleteLogical(c) if *c == latch(2)));
    assert!(matches!(&effects[6], Effect::RegistryEmpty));
    assert_eq!(effects.len(), 7);
}

#[test]
fn removal_is_reported_in_order_before_it_ends() {
    let mut registry = registry();
    let (done, mut outcome) = oneshot::channel();
    let (finished, mut announced) = committed(&mut registry, Some(done)).announce();
    assert_eq!(finished.kind, EventKind::TaskFinished);
    assert_eq!(finished.task.as_deref(), Some("worker"));
    assert!(outcome.try_recv().is_err(), "the event comes before the outcome");
    announced.deliver();
    assert!(matches!(outcome.try_recv(), Ok(TaskOutcome::ForceAborted)));
    let effects = registry.finalize(announced.finish());
    let removed = event(&effects[0]);
    assert_eq!(removed.kind, EventKind::TaskRemoved);
    assert_eq!(removed.task.as_deref(), Some("worker"));
    assert!(matches!(
        &effects[1],
        Effect::Submit(bundle) if bundle.ticket == 9 && bundle.outcomes.is_empty()
    ));
    assert!(!effects[1..]
        .iter()
        .any(|effect| matches!(effect, Effect::Publish(_))));
    assert!(matches!(effects.last(), Some(Effect::RegistryEmpty)));
}

#[test]
fn result_of_a_scheduled_actor_reaches_its_handle() {
    let mut registry = registry();
    let actor = add(&mut registry, 1, "worker")
        .into_iter()
        .find_map(|effect| match effect {
            Effect::Schedule(actor) => Some(actor),
            _ => None,
        })
        .expect("an accepted task is scheduled");
    let (id, undelivered) = actor.report(Ok(ActorExitReason::Completed));
    assert!(undelivered.is_none());
    match registry.cleanup_completed_task(id) {
        CompletionAction::Collect(claim) => assert!(matches!(
            claim.handle.join.ready,
            Some(Ok(ActorExitReason::Completed))
        )),
        _ => panic!("the result is there"),
    }
}

#[test]
fn shutdown_claims_whatever_is_registered() {
    let mut registry = registry();
    for (id, name) in [(1, "a"), (2, "b"), (3, "c")] {
        let _ = add(&mut registry, id, name);
    }
    let (reply, _rx) = oneshot::channel::<RemoveReply>();
    let _ = registry.remove_task(TaskId::new(2), reply);

    let sweep = registry.cancel_all_within();
    let mut claimed: Vec<u64> = sweep.claims.iter().map(|claim| claim.id.get()).collect();
    claimed.sort_unstable();
    assert_eq!(claimed, vec![1, 3]);
    assert_eq!(sweep.effects.len(), 2);
    assert!(registry.cancel_all_within().claims.is_empty());

    let mut pending = registry.wait_joins_within();
    pending.sort();
    assert_eq!(pending, vec!["a", "b", "c"]);

    let mut stuck = Vec::new();
    for claim in sweep.claims {
        let joined = if claim.id == TaskId::new(1) {
            Some(Ok(ActorExitReason::Completed))
        } else {
            None
        };
        let resolved = registry.sweep_step(claim, joined, false, &mut stuck);
        assert!(resolved.effects.is_empty(), "nothing was spawned");
        assert!(matches!(
            registry.finish_removal(resolved.report),
            Commit::Removed(_)
        ));
    }
    assert_eq!(stuck, vec![String::from("c")]);
    assert_eq!(listed(&registry), vec![(2, String::from("b"))]);
}

#[test]
fn completion_signal_claims_once_and_detaches_without_result() {
    let mut registry = registry();
    let _ = add(&mut registry, 1, "worker");
    match registry.cleanup_completed_task(TaskId::new(1)) {
        CompletionAction::Detach(Effect::Join { claim, force_after }) => {
            assert_eq!(claim.id, TaskId::new(1));
            assert_eq!(force_after, Some(GRACE));
        }
        _ => panic!("an early signal starts a detached join"),
    }
    assert!(matches!(
        registry.cleanup_completed_task(TaskId::new(1)),
        CompletionAction::Ignore
    ));
    assert!(matches!(
        registry.cleanup_completed_task(TaskId::new(2)),
        CompletionAction::Ignore
    ));
}

#[test]
fn completion_signal_collects_a_result_that_is_there() {
    let mut registry = registry();
    let effects = add(&mut registry, 1, "worker");
    let mut actor: Option<ScheduledActor<Source>> = None;
    for effect in effects {
        if let Effect::Schedule(scheduled) = effect {
            actor = Some(scheduled);
        }
    }
    let (id, undelivered) = actor.unwrap().report(Ok(ActorExitReason::Completed));
    assert_eq!(id, TaskId::new(1));
    assert!(undelivered.is_none());
    match registry.cleanup_completed_task(id) {
        CompletionAction::Collect(claim) => {
            assert!(matches!(
                claim.handle.join.ready,
                Some(Ok(ActorExitReason::Completed))
            ));
        }
        _ => panic!("a ready result is collected inline"),
    }
}

#[test]
fn finished_actor_wins_over_shutdown_and_deadline() {
    let joined: Option<ActorResult<Source>> = Some(Ok(ActorExitReason::Completed));
    assert!(matches!(
        join_turn(joined, true, true),
        JoinTurn::Joined(Ok(ActorExitReason::Completed))
    ));
    let none: Option<ActorResult<Source>> = None;
    assert!(matches!(
        join_turn(none, true, false),
        JoinTurn::ForceAbort
    ));
    let none: Option<ActorResult<Source>> = None;
    assert!(matches!(
        join_turn(none, false, true),
        JoinTurn::ForceAbort
    ));
    let none: Option<ActorResult<Source>> = None;
    assert!(matches!(join_turn(none, false, false), JoinTurn::Wait));
}

#[test]
fn activity_queries_combine_members_and_reaped_attempts() {
    let mut registry = registry();
    let _ = add(&mut registry, 1, "b");
    let _ = add(&mut registry, 2, "a");
    let _ = add(&mut registry, 3, "c");
    assert!(registry.alive_snapshot().is_empty());
    registry.set_activity(TaskId::new(1), true);
    registry.set_activity(TaskId::new(2), true);
    assert!(registry.is_alive(&String::from("a")));
    assert!(!registry.is_alive(&String::from("c")));
    assert!(!registry.is_alive(&String::from("nobody")));
    assert_eq!(registry.alive_snapshot(), vec!["a", "b"]);
    registry.set_activity(TaskId::new(2), false);
    assert_eq!(registry.alive_snapshot(), vec!["b"]);
}

#[test]
fn discarded_handle_gives_up_its_user_values() {
    let mut registry = registry();
    let _ = add(&mut registry, 1, "worker");
    let claim = registry.claim_task(TaskId::new(1)).unwrap();
    let effects = registry.discard_handle(TaskId::new(1), claim.handle, false);
    assert!(matches!(&effects[0], Effect::Submit(bundle) if bundle.ticket == 1));
    assert!(matches!(&effects[1], Effect::CompletePhysical(c) if *c == latch(1)));
    assert!(matches!(&effects[2], Effect::CompleteLogical(c) if *c == latch(1)));
}

#[test]
fn aborted_actor_reserves_its_name_until_exit_and_report_met() {
    let runtime = tokio::runtime::Builder::new_current_thread()
        .build()
        .unwrap();
    runtime.block_on(async {
        let mut registry = registry_with_limit(2);
        let _ = add(&mut registry, 1, "worker");
        let task = tokio::spawn(std::future::pending::<Option<ActorResult<Source>>>());
        assert!(registry.attach_actor_task(TaskId::new(1), task).is_none());
        registry.set_activity(TaskId::new(1), true);

        let claim = registry.claim_task(TaskId::new(1)).unwrap();
        let mut resolved = registry.resolve_join(claim, None, true);
        let order = match resolved.effects.remove(0) {
            Effect::Abort(AbortPlan::Reap(order)) => order,
            _ => panic!("an unfinished actor is reaped"),
        };
        assert_eq!(order.id, TaskId::new(1));
        assert_eq!(order.release, latch(1));
        assert!(order.result.is_some());
        assert_eq!(registry.reaping_attempts(), 1);
        assert!(!registry.awaits_coordinator());

        let commit = match registry.finish_removal(resolved.report) {
            Commit::Removed(commit) => commit,
            Commit::Stale(_) => panic!("the entry was removing"),
        };
        let effects = registry.finalize(report(commit).1);
        assert!(
            !effects
                .iter()
                .any(|e| matches!(e, Effect::Submit(_) | Effect::CompletePhysical(_))),
            "user values wait for the physical exit"
        );
        assert!(registry.is_empty());
        assert!(registry.name_taken(&String::from("worker")));
        assert!(registry.is_alive(&String::from("worker")));
        assert_eq!(registry.alive_snapshot(), vec!["worker"]);

        let refused = add(&mut registry, 2, "worker");
        assert!(matches!(
            add_reply(&refused[0]),
            Err(RuntimeError::TaskAlreadyExists { .. })
        ));
        let _ = add(&mut registry, 3, "other");
        let beyond = add(&mut registry, 4, "third");
        assert!(
            matches!(
                add_reply(&beyond[0]),
                Err(RuntimeError::ResourceLimitReached { limit: 2, .. })
            ),
            "a reaping attempt counts"
        );

        order.join.abort();
        assert!(order.join.await.is_err());
        let effects = registry.reap(order.id, order.release, 77, false);
        assert!(matches!(
            &effects[0],
            Effect::Submit(bundle) if bundle.ticket == 1 && bundle.output == Some(77)
        ));
        assert!(matches!(&effects[1], Effect::CompletePhysical(c) if *c == latch(1)));
        assert_eq!(registry.reaping_attempts(), 0);
        assert!(registry.awaits_coordinator());
        assert!(!registry.name_taken(&String::from("worker")));
        assert!(!registry.is_alive(&String::from("worker")));
        assert!(add_reply(&add(&mut registry, 5, "worker")[1]).is_ok());
    });
}

#[test]
fn task_of_a_claimed_actor_is_handed_back() {
    let runtime = tokio::runtime::Builder::new_current_thread()
        .build()
        .unwrap();
    runtime.block_on(async {
        let mut registry = registry();
        let _ = add(&mut registry, 1, "worker");
        let _claim = registry.claim_task(TaskId::new(1)).unwrap();
        let task = tokio::spawn(std::future::pending::<Option<ActorResult<Source>>>());
        let unused = registry.attach_actor_task(TaskId::new(1), task);
        unused.expect("nobody can take the task").abort();
    });
}

#[test]
fn every_command_is_answered_once() {
    let mut registry = registry_with_limit(3);
    let (add_tx, _add_rx) = oneshot::channel();
    let (again_tx, _again_rx) = oneshot::channel();
    let (batch_tx, _batch_rx) = oneshot::channel();
    let (full_tx, _full_rx) = oneshot::channel();
    let (remove_tx, _remove_rx) = oneshot::channel();
    let (named_tx, _named_rx) = oneshot::channel();
    let (cancel_tx, _cancel_rx) = oneshot::channel();
    let (lost_tx, _lost_rx) = oneshot::channel();
    let single = |id: u64, reply| RegistryCommand::Add {
        id: TaskId::new(id),
        name: String::from("worker"),
        owned: owned("worker", id),
        outcome: None,
        completion: None,
        fresh: latch(id),
        reply,
    };
    let commands: Vec<RegistryCommand<Source>> = vec![
        single(1, add_tx),
        single(2, again_tx),
        RegistryCommand::AddBatch {
            items: vec![batch_item(3, "a"), batch_item(4, "b")],
            reply: batch_tx,
        },
        RegistryCommand::AddBatch {
            items: vec![batch_item(5, "c")],
            reply: full_tx,
        },
        RegistryCommand::Remove {
            id: TaskId::new(1),
            reply: remove_tx,
        },
        RegistryCommand::RemoveByName {
            name: String::from("worker"),
            reply: named_tx,
        },
        RegistryCommand::Cancel {
            id: TaskId::new(3),
            reply: cancel_tx,
        },
        RegistryCommand::CancelByName {
            name: String::from("nobody"),
            reply: lost_tx,
        },
    ];
    for command in commands {
        assert!(registry.accepts(&command));
        let effects = registry.handle_command(command);
        let replies = effects
            .iter()
            .filter(|effect| {
                matches!(
                    effect,
                    Effect::ReplyAdd(..) | Effect::ReplyRemove(..) | Effect::ReplyCancel(..)
                )
            })
            .count();
        assert_eq!(replies, 1);
        let answered = effects
            .iter()
            .position(|effect| matches!(effect, Effect::ReplyAdd(_, Ok(()))));
        for (place, effect) in effects.iter().enumerate() {
            if matches!(effect, Effect::Schedule(_) | Effect::OpenStartGate) {
                assert!(answered.is_some_and(|answer| answer < place));
            }
        }
    }
}
