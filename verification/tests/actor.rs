use taskvisor::channel::Probe;
use taskvisor::identity::TaskId;
use taskvisor::outcome::{ActorExitReason, ActorJoinError, ActorResult};
use taskvisor::registry::actor::{
    AbortPlan, ActorHandle, ActorRegistration, AttemptReservation, JoinFailure, Joined,
    ScheduledActor,
};
use taskvisor::registry::completion::RemovalCompletion;
use taskvisor::registry::reaper::AttemptReaper;
use taskvisor::task_defaults::TaskDefaults;
use taskvisor::tasks::TaskSpec;
use tokio::sync::oneshot;

type Source = String;

fn bare_handle(result: Option<oneshot::Receiver<ActorResult<Source>>>) -> ActorHandle<Source> {
    ActorHandle {
        join: None,
        join_slot: None,
        result,
        ready: None,
        logical: None,
        reservation: None,
    }
}

fn recheck_after_an_empty_probe() {
    let (result_tx, result_rx) = oneshot::channel();
    let mut handle = bare_handle(Some(result_rx));

    assert!(
        !handle.result_ready(),
        "the regression requires the first receiver probe to be empty"
    );
    result_tx
        .send(Ok(ActorExitReason::Completed))
        .expect("the actor result receiver remains owned by the handle");

    let result = handle.complete_join(Ok(None));
    assert!(
        matches!(result, Ok(ActorExitReason::Completed)),
        "the queued actor result must win over the missing join fallback"
    );
    assert!(handle.result.is_none());
}

#[test]
fn scheduler_joined_wrapper_rechecks_result_after_an_initial_empty_probe() {
    recheck_after_an_empty_probe();
}

#[test]
fn actor_joined_wrapper_rechecks_result_after_an_initial_empty_probe() {
    recheck_after_an_empty_probe();
}

#[test]
fn closed_result_channel_is_given_up() {
    let (result_tx, result_rx) = oneshot::channel();
    let mut handle = bare_handle(Some(result_rx));
    drop(result_tx);
    assert!(handle.awaits_result());
    assert!(!handle.result_ready());
    assert!(handle.result.is_none());
    assert!(!handle.awaits_result());
}

#[test]
fn join_falls_back_to_what_the_task_returned() {
    let cases: Vec<(Joined<Source>, ActorJoinError)> = vec![
        (Ok(None), ActorJoinError::Aborted),
        (Err(JoinFailure::Cancelled), ActorJoinError::Aborted),
        (
            Err(JoinFailure::Panicked {
                cleanup_poisoned: true,
            }),
            ActorJoinError::Panicked {
                cleanup_poisoned: true,
            },
        ),
    ];
    for (joined, expected) in cases {
        let mut handle = bare_handle(None);
        assert_eq!(handle.complete_join(joined).unwrap_err(), expected);
    }

    let mut handle = bare_handle(None);
    let undelivered: Joined<Source> = Ok(Some(Ok(ActorExitReason::Canceled)));
    assert!(matches!(
        handle.complete_join(undelivered),
        Ok(ActorExitReason::Canceled)
    ));
    assert!(matches!(
        ActorHandle::choose_result(
            Some(Ok(ActorExitReason::Completed)),
            Err::<Option<ActorResult<Source>>, _>(JoinFailure::Cancelled)
        ),
        Ok(ActorExitReason::Completed)
    ));
}

#[test]
fn abort_without_a_task_only_reports() {
    let mut reaper: AttemptReaper<Source> = AttemptReaper::new();
    let mut handle = bare_handle(None);
    assert!(matches!(
        handle.abort(&mut reaper, true),
        AbortPlan::Nothing
    ));
    assert_eq!(reaper.active(), 0);
    assert!(matches!(
        handle.poll(Probe::Empty, None),
        Some(Err(ActorJoinError::Aborted))
    ));
    assert!(handle.poll(Probe::Empty, None).is_none());
}

#[test]
fn abort_of_a_spawned_task_follows_its_reservation() {
    let runtime = tokio::runtime::Builder::new_current_thread()
        .build()
        .unwrap();
    runtime.block_on(async {
        let mut reaper: AttemptReaper<Source> = AttemptReaper::new();
        let mut handle = bare_handle(None);
        handle.fill_join_slot(tokio::spawn(std::future::pending()));
        match handle.abort(&mut reaper, true) {
            AbortPlan::Abort(task) => task.abort(),
            _ => panic!("without a reservation the task is only aborted"),
        }
        assert_eq!(reaper.active(), 0);

        let mut handle = bare_handle(None);
        handle.ready = Some(Ok(ActorExitReason::Completed));
        handle.reservation = Some(AttemptReservation::new(
            TaskId::new(4),
            String::from("worker"),
            RemovalCompletion::new(9),
        ));
        handle.fill_join_slot(tokio::spawn(std::future::pending()));
        match handle.abort(&mut reaper, true) {
            AbortPlan::Reap(order) => {
                assert_eq!(order.id, TaskId::new(4));
                assert_eq!(order.release, RemovalCompletion::new(9));
                assert!(matches!(
                    order.ready,
                    Some(Ok(ActorExitReason::Completed))
                ));
                order.join.abort();
            }
            _ => panic!("a reserved task is reaped"),
        }
        assert_eq!(reaper.active(), 1);
        assert!(reaper.reserves_name(&String::from("worker")));
        assert!(reaper.is_alive(&String::from("worker")));
    });
}

#[test]
fn poll_waits_for_the_physical_task_and_keeps_the_result() {
    let runtime = tokio::runtime::Builder::new_current_thread()
        .build()
        .unwrap();
    runtime.block_on(async {
        let (_result_tx, result_rx) = oneshot::channel::<ActorResult<Source>>();
        let mut handle = bare_handle(Some(result_rx));
        assert!(handle.poll(Probe::Empty, Some(Ok(None))).is_none());

        handle.fill_join_slot(tokio::spawn(async { None }));
        assert!(handle
            .poll(Probe::Ready(Ok(ActorExitReason::Completed)), None)
            .is_none());
        assert!(handle.result.is_none());
        assert!(matches!(
            handle.poll(Probe::Empty, Some(Ok(None))),
            Some(Ok(ActorExitReason::Completed))
        ));
    });
}

#[test]
fn scheduled_actor_and_handle_share_one_channel() {
    let params = TaskSpec::once(String::from("worker")).resolve(&TaskDefaults::default());
    let registration = ActorRegistration {
        id: TaskId::new(3),
        name: String::from("worker"),
        physical_release: RemovalCompletion::new(3),
    };
    let (scheduled, mut handle) = ScheduledActor::<Source>::new(registration, params);
    assert_eq!(scheduled.id, TaskId::new(3));
    assert!(!handle.result_ready());
    let (id, undelivered) = scheduled.report(Ok(ActorExitReason::Canceled));
    assert_eq!(id, TaskId::new(3));
    assert!(undelivered.is_none());
    assert!(handle.result_ready());

    let registration = ActorRegistration {
        id: TaskId::new(4),
        name: String::from("other"),
        physical_release: RemovalCompletion::new(4),
    };
    let (scheduled, handle) = ScheduledActor::<Source>::new(registration, params);
    drop(handle);
    let (_, undelivered) = scheduled.report(Ok(ActorExitReason::Completed));
    assert!(matches!(undelivered, Some(Ok(ActorExitReason::Completed))));
}
