use std::io;
use std::sync::Arc;
use std::time::Duration;

use taskvisor::channel::QueueRefusal;
use taskvisor::config::{NonZeroUsize, SupervisorConfig};
use taskvisor::deferred_drop::{DropAdmissionError, DropDomain};
use taskvisor::error::{BuildError, RuntimeError};
use taskvisor::events::{Event, EventKind};
use taskvisor::identity::TaskId;
use taskvisor::registry::completion::RemovalCompletion;
use taskvisor::registry::protocol::{AddBatchItem, CancelDecision, RegistryCommand};
use taskvisor::runtime::add::{await_add_batch_reply, await_add_reply, slot_wait};
use taskvisor::runtime::bus::BusQueue;
use taskvisor::runtime::cancel::{await_cancel_reply, wait_cancel_decision, CancelWait};
use taskvisor::runtime::cleanup::{
    branch_outcome, drain_with_grace, owner_outcome, perform_shutdown, resolve_shutdown,
    CleanupPhase, CleanupTail, PhaseResult, Resolution,
};
use taskvisor::runtime::command_gate::{fence_result, queue_refused};
use taskvisor::runtime::event_relay::{
    drain_pending, join_subscriber_listener, relay_message, BusMessage, SHUTDOWN_RELAY_DRAIN_LIMIT,
};
use taskvisor::runtime::lifecycle::{Startup, Worker};
use taskvisor::runtime::ownership::{
    destructor_panic, own_task, ownership_admission_error, wait_for_ownership,
};
use taskvisor::runtime::remove::await_remove_reply;
use taskvisor::runtime::shutdown::{
    rebuild_plan, Rebuild, ShutdownEntry, ShutdownOutcome, ShutdownTrigger,
};
use taskvisor::runtime::static_run::{RunStep, RunWake};
use taskvisor::runtime::SupervisorCore;
use taskvisor::supervisor::{Subscriber, Supervisor, SupervisorBuilder};
use taskvisor::task_defaults::TaskDefaults;
use taskvisor::tasks::TaskSpec;
use tokio::sync::{mpsc, oneshot};

type Source = String;
type Command = RegistryCommand<Source>;

fn supervisor() -> Supervisor {
    Supervisor::new(SupervisorConfig::default(), vec![])
}

fn supervisor_with_capacity(capacity: usize) -> Supervisor {
    Supervisor::new(
        SupervisorConfig::default().with_ownership_capacity(NonZeroUsize::new(capacity)),
        vec![],
    )
}

fn spec(name: &str) -> TaskSpec {
    TaskSpec::once(name.to_string())
}

fn latch(number: u64) -> RemovalCompletion {
    RemovalCompletion::new(number)
}

fn close(supervisor: &mut Supervisor) {
    supervisor.owner().mark_shutting_down();
}

#[test]
fn serve_without_tokio_returns_typed_error_and_can_retry() {
    let mut supervisor = supervisor();
    assert!(matches!(
        supervisor.serve(),
        Err(RuntimeError::TokioRuntimeUnavailable)
    ));
    assert_eq!(supervisor.ownership_snapshot().charged, 0);

    let runtime = tokio::runtime::Builder::new_current_thread()
        .enable_all()
        .build()
        .expect("test runtime");
    runtime.block_on(async {
        let startup = supervisor.serve().expect("retry inside Tokio must start");
        assert!(matches!(startup, Startup::Launch(_)));
        supervisor
            .owner()
            .finish_start(Ok(()))
            .expect("workers start");
        assert!(matches!(supervisor.serve(), Ok(Startup::Running)));
        assert_eq!(supervisor.ownership_snapshot().charged, 0);
        let _ = supervisor
            .owner()
            .begin_shutdown(ShutdownTrigger::Requested);
        supervisor
            .owner()
            .finish_shutdown(ShutdownOutcome::Completed);
        supervisor
            .owner()
            .shutdown_outcome(false)
            .expect("cached")
            .into_result(|_, _| io::Error::other("unused"))
            .expect("runtime must shut down");
        assert_eq!(supervisor.ownership_snapshot().charged, 0);
    });
    assert!(
        matches!(supervisor.serve(), Ok(Startup::Running)),
        "a started runtime needs no second start"
    );
}

#[test]
fn failed_static_start_does_not_consume_single_shot_lifecycle() {
    let mut supervisor = supervisor();
    for _ in 0..2 {
        let claim = match supervisor.owner().begin_run(0) {
            Ok(RunStep::StartEmpty(claim)) => claim,
            _ => panic!("an empty run starts its workers"),
        };
        let started = supervisor.serve().map(|_| ());
        assert!(matches!(
            supervisor.owner().started_empty(claim, started),
            Err(RuntimeError::TokioRuntimeUnavailable)
        ));
        assert_eq!(supervisor.ownership_snapshot().charged, 0);
    }

    let runtime = tokio::runtime::Builder::new_current_thread()
        .enable_all()
        .build()
        .expect("test runtime");
    runtime.block_on(async {
        let claim = match supervisor.owner().begin_run(0) {
            Ok(RunStep::StartEmpty(claim)) => claim,
            _ => panic!("retry inside Tokio must retain the run lifecycle"),
        };
        supervisor.serve().expect("workers can be launched");
        supervisor.owner().finish_start(Ok(())).expect("started");
        assert!(matches!(
            supervisor.owner().started_empty(claim, Ok(())),
            Ok(RunStep::Drive)
        ));
        assert!(matches!(
            supervisor.owner().begin_run(0),
            Err(RuntimeError::AlreadyRunning)
        ));
    });
}

#[test]
fn nonempty_static_without_tokio_keeps_destructor_isolation_dormant() {
    let mut supervisor = supervisor();
    let tasks = vec![spec("outside-tokio")];
    let claim = match supervisor.owner().begin_run(tasks.len()) {
        Ok(RunStep::PollTrigger(claim)) => claim,
        _ => panic!("a run with tasks looks at its trigger first"),
    };
    let claim = match SupervisorCore::polled(claim, false, false) {
        RunStep::Reserve(claim) => claim,
        _ => panic!("nothing stops the run"),
    };
    assert!(matches!(
        supervisor.owner().reserve_batch(claim, tasks.len(), || {
            panic!("nothing starts outside a runtime")
        }),
        Err(RuntimeError::TokioRuntimeUnavailable)
    ));
    assert_eq!(supervisor.ownership_snapshot().charged, 0);
    assert!(supervisor.owner().begin_run(1).is_ok());
}

#[test]
fn workers_start_in_order_and_relay_only_with_subscribers() {
    let mut silent = supervisor();
    match silent.owner().plan_start(true) {
        Ok(Startup::Launch(workers)) => assert_eq!(
            workers,
            vec![Worker::Subscribers, Worker::Registry, Worker::Controller]
        ),
        _ => panic!("a stopped supervisor launches"),
    }
    let mut observed = Supervisor::new(
        SupervisorConfig::default(),
        vec![Subscriber { ticket: 1 }],
    );
    match observed.owner().plan_start(true) {
        Ok(Startup::Launch(workers)) => assert_eq!(
            workers,
            vec![
                Worker::Subscribers,
                Worker::Relay,
                Worker::Registry,
                Worker::Controller
            ]
        ),
        _ => panic!("a stopped supervisor launches"),
    }
    assert!(matches!(
        observed.owner().plan_start(false),
        Err(RuntimeError::TokioRuntimeUnavailable)
    ));
    let failed = RuntimeError::ThreadStartFailed {
        component: "subscriber_dispatch",
        source: io::Error::other("no thread"),
    };
    assert!(observed.owner().finish_start(Err(failed)).is_err());
    assert!(matches!(
        observed.owner().plan_start(true),
        Ok(Startup::Launch(_))
    ));
}

#[test]
fn builder_charges_subscribers_and_refuses_too_many() {
    let config = SupervisorConfig::default().with_ownership_capacity(NonZeroUsize::new(1));
    let built = SupervisorBuilder::new(config)
        .with_subscribers(vec![Subscriber { ticket: 1 }])
        .try_build()
        .unwrap();
    assert_eq!(built.ownership_snapshot().charged, 1);
    assert_eq!(built.ownership_snapshot().capacity, Some(1));
    assert_eq!(
        Supervisor::builder(config)
            .with_subscribers(vec![Subscriber { ticket: 1 }, Subscriber { ticket: 2 }])
            .try_build()
            .unwrap_err(),
        BuildError::ResourceLimitReached {
            resource: "owned_user_lifetimes",
            limit: 1
        }
    );
}

#[test]
fn supervisor_exposes_its_settings() {
    let config = SupervisorConfig::default()
        .with_grace(Duration::from_secs(3))
        .with_bus_capacity(NonZeroUsize::new(2).unwrap())
        .with_registry_queue_capacity(NonZeroUsize::new(5).unwrap())
        .with_max_registered_tasks(NonZeroUsize::new(7));
    let defaults = TaskDefaults::default().with_timeout(Duration::from_secs(9));
    let supervisor = Supervisor::builder(config)
        .with_task_defaults(defaults)
        .try_build()
        .unwrap();
    assert_eq!(supervisor.runtime_config().grace(), Duration::from_secs(3));
    assert_eq!(supervisor.runtime_config().bus_capacity().get(), 2);
    assert_eq!(supervisor.runtime_config().registry_queue_capacity().get(), 5);
    assert_eq!(
        supervisor
            .runtime_config()
            .max_registered_tasks()
            .map(|limit| limit.get()),
        Some(7)
    );
    assert_eq!(
        supervisor.task_defaults().timeout(),
        Some(Duration::from_secs(9))
    );
    let plain = SupervisorConfig::default();
    assert_eq!(plain.grace(), Duration::from_secs(60));
    assert_eq!(plain.ownership_capacity().map(|c| c.get()), Some(1024));
    assert_eq!(plain.registry_queue_capacity().get(), 1024);
    assert_eq!(plain.bus_capacity().get(), 1024);
    assert!(plain.max_registered_tasks().is_none());
}

#[test]
fn bounded_queue_reports_full_recovers_and_closes() {
    let mut supervisor = supervisor();
    let (tx, mut rx) = mpsc::channel::<Command>(1);
    let first = supervisor
        .owner()
        .enqueue_remove(&tx, TaskId::new(1), Some("replaced"))
        .unwrap_or_else(|_| panic!("one slot is free"));
    assert_eq!(first.events[0].kind, EventKind::TaskRemoveRequested);
    assert_eq!(first.events[0].reason.as_deref(), Some("replaced"));
    first.slot.send(first.command);
    assert!(matches!(
        supervisor.owner().enqueue_cancel(&tx, TaskId::new(1)),
        Err(RuntimeError::CommandQueueFull)
    ));
    assert!(matches!(
        rx.try_recv(),
        Ok(RegistryCommand::Remove { id, .. }) if id == TaskId::new(1)
    ));
    let named = supervisor
        .owner()
        .enqueue_cancel_by_name(&tx, String::from("worker"))
        .unwrap_or_else(|_| panic!("capacity recovered"));
    assert!(named.events.is_empty());
    named.slot.send(named.command);
    assert!(matches!(
        rx.try_recv(),
        Ok(RegistryCommand::CancelByName { name, .. }) if name == "worker"
    ));
    drop(rx);
    assert!(matches!(
        supervisor
            .owner()
            .enqueue_remove_by_name(&tx, String::from("worker")),
        Err(RuntimeError::ShuttingDown)
    ));
}

#[test]
fn nothing_commits_after_admission_closed() {
    let mut supervisor = supervisor();
    let (tx, _rx) = mpsc::channel::<Command>(8);
    assert!(supervisor.owner().check_open().is_ok());
    assert!(supervisor.owner().command_admission());
    close(&mut supervisor);
    assert!(supervisor.owner().is_shutting_down());
    assert!(!supervisor.owner().command_admission());
    let core = supervisor.owner();
    assert!(matches!(
        core.check_open(),
        Err(RuntimeError::ShuttingDown)
    ));
    assert!(core.enqueue_remove(&tx, TaskId::new(1), None).is_err());
    assert!(core.enqueue_cancel(&tx, TaskId::new(1)).is_err());
    assert!(core
        .enqueue_remove_by_name(&tx, String::from("a"))
        .is_err());
    assert!(core
        .enqueue_cancel_by_name(&tx, String::from("a"))
        .is_err());
    let waited = core.enqueue_remove_wait::<u8, Source>(Ok(1), TaskId::new(1), None);
    assert!(matches!(waited, Err(RuntimeError::ShuttingDown)));
    let waited = core.enqueue_cancel_wait::<u8, Source>(Ok(1), TaskId::new(1));
    assert!(matches!(waited, Err(RuntimeError::ShuttingDown)));
    let batch = core.enqueue_add_batch_wait::<u8, Source>(Ok(1), Vec::new());
    assert!(matches!(
        batch,
        Err(uncommitted) if matches!(uncommitted.error, RuntimeError::ShuttingDown)
    ));
    let added = core.enqueue_add_task(
        &tx,
        TaskId::new(2),
        spec("late"),
        2,
        None,
        latch(2),
        || panic!("nothing starts behind a closed gate"),
    );
    match added {
        Err(uncommitted) => {
            assert!(matches!(uncommitted.error, RuntimeError::ShuttingDown));
            assert!(uncommitted.cleanup.is_none());
        }
        Ok(_) => panic!("closed admission refuses"),
    }
    assert_eq!(supervisor.ownership_snapshot().charged, 0);
}

#[test]
fn waiting_commands_commit_through_their_slot() {
    let mut supervisor = supervisor();
    let core: &mut SupervisorCore = supervisor.owner();
    let removed = core
        .enqueue_remove_wait::<u8, Source>(Ok(9), TaskId::new(1), None)
        .unwrap_or_else(|_| panic!("admission is open"));
    assert_eq!(removed.slot, 9);
    assert_eq!(removed.events[0].reason, None);
    let named = core
        .enqueue_remove_by_name_wait::<u8, Source>(Ok(9), String::from("a"))
        .unwrap_or_else(|_| panic!("admission is open"));
    assert!(matches!(
        named.command,
        RegistryCommand::RemoveByName { .. }
    ));
    let canceled = core
        .enqueue_cancel_by_name_wait::<u8, Source>(Ok(9), String::from("a"))
        .unwrap_or_else(|_| panic!("admission is open"));
    assert!(matches!(
        canceled.command,
        RegistryCommand::CancelByName { .. }
    ));
    assert!(matches!(
        core.enqueue_cancel_wait::<u8, Source>(Err(QueueRefusal::Closed), TaskId::new(1)),
        Err(RuntimeError::ShuttingDown)
    ));
    assert!(matches!(
        queue_refused(QueueRefusal::Full),
        RuntimeError::CommandQueueFull
    ));
}

#[test]
fn fail_fast_add_charges_ownership_and_announces_the_request() {
    let mut supervisor = supervisor_with_capacity(1);
    let (tx, mut rx) = mpsc::channel::<Command>(2);
    let (done, _outcome) = oneshot::channel();
    let committed = supervisor
        .owner()
        .enqueue_add_task(
            &tx,
            TaskId::new(1),
            spec("worker"),
            5,
            Some(done),
            latch(1),
            || Ok(()),
        )
        .unwrap_or_else(|_| panic!("everything has room"));
    assert_eq!(committed.events[0].kind, EventKind::TaskAddRequested);
    assert_eq!(committed.events[0].task.as_deref(), Some("worker"));
    committed.slot.send(committed.command);
    match rx.try_recv() {
        Ok(RegistryCommand::Add {
            id,
            name,
            owned,
            outcome,
            ..
        }) => {
            assert_eq!(id, TaskId::new(1));
            assert_eq!(name, "worker");
            assert_eq!(owned.cleanup.ticket, 5);
            assert!(outcome.is_some());
        }
        _ => panic!("an add was sent"),
    }
    assert_eq!(supervisor.ownership_snapshot().charged, 1);

    let refused = supervisor.owner().enqueue_add_task(
        &tx,
        TaskId::new(2),
        spec("second"),
        6,
        None,
        latch(2),
        || Ok(()),
    );
    match refused {
        Err(uncommitted) => assert!(matches!(
            uncommitted.error,
            RuntimeError::ResourceLimitReached {
                resource: "owned_user_lifetimes",
                limit: 1
            }
        )),
        Ok(_) => panic!("the budget is exhausted"),
    }
    supervisor.owner().release_ownership(true);
    let snapshot = supervisor.ownership_snapshot();
    assert_eq!((snapshot.charged, snapshot.retired), (0, 1));
    let retired = supervisor.owner().enqueue_add_task(
        &tx,
        TaskId::new(3),
        spec("third"),
        7,
        None,
        latch(3),
        || Ok(()),
    );
    assert!(retired.is_err(), "a retired slot is never given out again");
}

#[test]
fn full_queue_starts_no_destructor_worker() {
    let mut supervisor = supervisor();
    let (tx, _rx) = mpsc::channel::<Command>(1);
    let _held = tx.try_reserve().unwrap();
    let refused = supervisor.owner().enqueue_add_task(
        &tx,
        TaskId::new(1),
        spec("worker"),
        1,
        None,
        latch(1),
        || panic!("nothing starts while the queue is full"),
    );
    match refused {
        Err(uncommitted) => {
            assert!(matches!(uncommitted.error, RuntimeError::CommandQueueFull));
            assert!(uncommitted.cleanup.is_none());
        }
        Ok(_) => panic!("the queue is full"),
    }
    assert_eq!(supervisor.ownership_snapshot().charged, 0);
}

#[test]
fn add_failures_keep_their_order_and_return_every_value() {
    let mut supervisor = supervisor();
    let core = supervisor.owner();
    let (done, _rx) = oneshot::channel();
    let no_worker = Err(io::Error::other("no worker"));
    match core.charge_add::<Source>(spec("a"), 1, Some(done), no_worker) {
        Err(uncommitted) => {
            assert!(matches!(
                uncommitted.error,
                RuntimeError::ThreadStartFailed {
                    component: "destructor_isolation",
                    ..
                }
            ));
            assert!(uncommitted.done.is_some());
            assert!(uncommitted.cleanup.is_none());
        }
        Ok(_) => panic!("workers did not start"),
    }
    let (owned, done) = match core.charge_add::<Source>(spec("a"), 1, None, Ok(())) {
        Ok(charged) => charged,
        Err(_) => panic!("the budget has room"),
    };
    assert_eq!(core.ownership_snapshot().charged, 1);
    assert_eq!(owned.cleanup.ticket, 1);
    assert!(owned.cleanup.outcomes.is_empty() && !owned.cleanup.poisoned);
    assert!(owned.cleanup.output.is_none() && owned.cleanup.payload.is_none());
    match core.add_with_slot::<u8, Source>(
        TaskId::new(1),
        owned,
        done,
        latch(1),
        Err(QueueRefusal::Full),
    ) {
        Err(uncommitted) => {
            assert!(matches!(uncommitted.error, RuntimeError::CommandQueueFull));
            assert_eq!(uncommitted.cleanup.map(|bundle| bundle.ticket), Some(1));
        }
        Ok(_) => panic!("the queue is full"),
    }
    let owned = own_task::<Source>(spec("b"), 2);
    match core.finish_add_wait::<u8, Source>(
        TaskId::new(2),
        owned,
        None,
        latch(2),
        Err(QueueRefusal::Closed),
    ) {
        Err(uncommitted) => {
            assert!(matches!(uncommitted.error, RuntimeError::ShuttingDown));
            assert_eq!(uncommitted.cleanup.map(|bundle| bundle.ticket), Some(2));
        }
        Ok(_) => panic!("the queue is gone"),
    }
    let owned = own_task::<Source>(spec("c"), 3);
    let committed = core
        .finish_add_wait::<u8, Source>(TaskId::new(3), owned, None, latch(3), Ok(4))
        .unwrap_or_else(|_| panic!("a slot was granted"));
    assert_eq!(committed.slot, 4);
}

#[test]
fn controller_add_recovers_every_value() {
    let mut supervisor = supervisor();
    let core = supervisor.owner();
    let committed = core
        .add_task_with_id_watched::<u8, Source>(
            Ok(1),
            TaskId::new(1),
            String::from("slot"),
            own_task(spec("slot"), 4),
            None,
            latch(6),
        )
        .unwrap_or_else(|_| panic!("a slot was granted"));
    assert!(matches!(
        committed.command,
        RegistryCommand::Add { completion: Some(completion), .. } if completion == latch(6)
    ));
    match core.add_task_with_id_watched::<u8, Source>(
        Err(QueueRefusal::Full),
        TaskId::new(2),
        String::from("slot"),
        own_task(spec("slot"), 5),
        None,
        latch(7),
    ) {
        Err(uncommitted) => {
            assert!(matches!(uncommitted.error, RuntimeError::CommandQueueFull));
            assert_eq!(uncommitted.name, "slot");
            assert_eq!(uncommitted.owned.cleanup.ticket, 5);
        }
        Ok(_) => panic!("the queue is full"),
    }
}

#[test]
fn reserved_controller_add_checks_shutdown_again() {
    let mut supervisor = supervisor();
    let committed = supervisor
        .owner()
        .commit_reserved_controller_add::<u8, Source>(
            9,
            TaskId::new(1),
            String::from("slot"),
            own_task(spec("slot"), 4),
            None,
            latch(6),
        )
        .unwrap_or_else(|_| panic!("admission is open"));
    assert_eq!(committed.slot, 9);
    assert_eq!(committed.events.len(), 1);
    assert_eq!(committed.events[0].kind, EventKind::TaskAddRequested);

    close(&mut supervisor);
    let (done, _rx) = oneshot::channel();
    match supervisor
        .owner()
        .commit_reserved_controller_add::<u8, Source>(
            9,
            TaskId::new(2),
            String::from("slot"),
            own_task(spec("slot"), 5),
            Some(done),
            latch(7),
        ) {
        Err(uncommitted) => {
            assert!(matches!(uncommitted.error, RuntimeError::ShuttingDown));
            assert!(uncommitted.done.is_some());
            assert_eq!(uncommitted.owned.cleanup.ticket, 5);
        }
        Ok(_) => panic!("admission is closed"),
    }
}

#[test]
fn batch_request_announces_every_item() {
    let mut supervisor = supervisor();
    let items = vec![
        AddBatchItem {
            id: TaskId::new(1),
            name: String::from("a"),
            owned: own_task::<Source>(spec("a"), 1),
            completion: latch(1),
        },
        AddBatchItem {
            id: TaskId::new(2),
            name: String::from("b"),
            owned: own_task::<Source>(spec("b"), 2),
            completion: latch(2),
        },
    ];
    let committed = supervisor
        .owner()
        .enqueue_add_batch_wait::<u8, Source>(Ok(1), items)
        .unwrap_or_else(|_| panic!("a slot was granted"));
    let names: Vec<&str> = committed
        .events
        .iter()
        .map(|event| event.task.as_deref().unwrap())
        .collect();
    assert_eq!(names, vec!["a", "b"]);

    let items = vec![AddBatchItem {
        id: TaskId::new(3),
        name: String::from("c"),
        owned: own_task::<Source>(spec("c"), 3),
        completion: latch(3),
    }];
    match supervisor
        .owner()
        .enqueue_add_batch_wait::<u8, Source>(Err(QueueRefusal::Closed), items)
    {
        Err(uncommitted) => {
            assert!(matches!(uncommitted.error, RuntimeError::ShuttingDown));
            assert_eq!(uncommitted.items[0].owned.cleanup.ticket, 3);
        }
        Ok(_) => panic!("the queue is gone"),
    }
}

#[test]
fn ownership_wait_prefers_shutdown_then_a_ready_slot_then_the_deadline() {
    let timeout = Duration::ZERO;
    assert!(matches!(
        wait_for_ownership(true, false, Some(Ok(1)), Some(timeout)),
        Some(Err(RuntimeError::ShuttingDown))
    ));
    assert!(matches!(
        wait_for_ownership(false, true, Some(Ok(1)), None),
        Some(Err(RuntimeError::ShuttingDown))
    ));
    assert!(matches!(
        wait_for_ownership(false, false, Some(Ok(1)), Some(timeout)),
        Some(Ok(1))
    ));
    assert!(matches!(
        wait_for_ownership::<u8>(false, false, None, Some(timeout)),
        Some(Err(RuntimeError::OwnershipAdmissionTimeout { timeout: t })) if t == timeout
    ));
    assert!(wait_for_ownership::<u8>(false, false, None, None).is_none());
    assert!(matches!(
        wait_for_ownership::<u8>(
            false,
            false,
            Some(Err(DropAdmissionError::Capacity { limit: 3 })),
            None
        ),
        Some(Err(RuntimeError::ResourceLimitReached { limit: 3, .. }))
    ));
    assert!(matches!(
        slot_wait(true, Some(Ok(1))),
        Some(Err(QueueRefusal::Closed))
    ));
    assert!(matches!(slot_wait(false, Some(Ok(1))), Some(Ok(1))));
    assert!(slot_wait::<u8>(false, None).is_none());
}

#[test]
fn ownership_errors_keep_their_details() {
    let error = ownership_admission_error(DropAdmissionError::Start {
        source: io::Error::new(io::ErrorKind::WouldBlock, "limit"),
    });
    assert_eq!(
        error.source().map(io::Error::kind),
        Some(io::ErrorKind::WouldBlock)
    );
    let mut domain = DropDomain::new(Some(2));
    assert!(domain.try_reserve_many(3).is_err());
    assert_eq!(domain.snapshot().charged, 0, "a batch is charged or not");
    assert!(domain.try_reserve().is_ok());
    assert!(domain.try_reserve().is_ok());
    assert!(domain.try_reserve().is_err());
    domain.release(false);
    assert!(domain.try_reserve().is_ok());
    assert_eq!(
        destructor_panic("boom").reason.as_deref(),
        Some("task_drop_panicked: boom")
    );
}

#[test]
fn cancel_result_records_the_claim() {
    let decision = CancelDecision {
        id: TaskId::new(4),
        claimed: true,
        completion: latch(4),
    };
    assert!(matches!(
        wait_cancel_decision(None, CancelWait::Completed),
        Ok(false)
    ));
    assert!(matches!(
        wait_cancel_decision(Some(decision), CancelWait::Completed),
        Ok(true)
    ));
    let timeout = Duration::from_millis(5);
    assert!(matches!(
        wait_cancel_decision(
            Some(decision),
            CancelWait::Expired {
                timeout,
                complete: false
            }
        ),
        Err(RuntimeError::TaskTerminationTimeout { id, timeout: t })
            if id == TaskId::new(4) && t == timeout
    ));
    assert!(matches!(
        wait_cancel_decision(
            Some(decision),
            CancelWait::Expired {
                timeout,
                complete: true
            }
        ),
        Ok(true)
    ));
}

#[test]
fn lost_replies_mean_shutdown() {
    assert!(matches!(
        await_remove_reply(None),
        Err(RuntimeError::ShuttingDown)
    ));
    assert!(matches!(await_remove_reply(Some(Ok(true))), Ok(true)));
    assert!(matches!(
        await_cancel_reply(None),
        Err(RuntimeError::ShuttingDown)
    ));
    assert!(matches!(await_cancel_reply(Some(Ok(None))), Ok(None)));
    assert!(matches!(
        await_add_reply(TaskId::new(1), None),
        Err(RuntimeError::ShuttingDown)
    ));
    assert!(matches!(
        await_add_reply(TaskId::new(1), Some(Ok(()))),
        Ok(id) if id == TaskId::new(1)
    ));
    assert!(matches!(
        await_add_reply(
            TaskId::new(1),
            Some(Err(RuntimeError::TaskAlreadyExists {
                name: String::from("a")
            }))
        ),
        Err(RuntimeError::TaskAlreadyExists { .. })
    ));
    assert!(matches!(
        await_add_batch_reply(None),
        Err(RuntimeError::ShuttingDown)
    ));
    assert!(await_add_batch_reply(Some(Ok(()))).is_ok());
    assert!(fence_result(true, true).is_ok());
    assert!(fence_result(true, false).is_err());
    assert!(fence_result(false, true).is_err());
}

#[test]
fn oversized_static_runs_are_refused_and_leave_the_lifecycle_free() {
    let mut limited = Supervisor::new(
        SupervisorConfig::default().with_max_registered_tasks(NonZeroUsize::new(1)),
        vec![],
    );
    assert!(matches!(
        limited.owner().begin_run(2),
        Err(RuntimeError::ResourceLimitReached {
            resource: "registered_tasks",
            limit: 1
        })
    ));
    assert!(matches!(
        limited.owner().begin_run(1),
        Ok(RunStep::PollTrigger(_))
    ));

    let capacity = NonZeroUsize::new(2);
    let mut observed = Supervisor::new(
        SupervisorConfig::default().with_ownership_capacity(capacity),
        vec![Subscriber { ticket: 1 }],
    );
    assert!(matches!(
        observed.owner().begin_run(2),
        Err(RuntimeError::ResourceLimitReached {
            resource: "owned_user_lifetimes",
            limit: 2
        })
    ));
    assert!(observed.owner().begin_run(1).is_ok());
    assert!(matches!(
        observed.owner().begin_run(1),
        Err(RuntimeError::AlreadyRunning)
    ));
}

#[test]
fn disabled_ownership_limit_refuses_nothing() {
    let mut unlimited = Supervisor::new(
        SupervisorConfig::default()
            .with_max_registered_tasks(None)
            .with_ownership_capacity(None),
        vec![Subscriber { ticket: 1 }],
    );
    assert_eq!(unlimited.ownership_snapshot().capacity, None);
    let claim = match unlimited.owner().begin_run(100_000) {
        Ok(RunStep::PollTrigger(claim)) => claim,
        _ => panic!("no capacity is checked beforehand"),
    };
    assert!(matches!(
        unlimited
            .owner()
            .reserve_batch_in(claim, 100_000, true, Ok(())),
        Ok(RunStep::StartBatch(_))
    ));
    assert_eq!(unlimited.ownership_snapshot().charged, 100_001);
    let mut domain = DropDomain::new(None);
    assert!(domain.try_reserve_many(usize::MAX).is_ok());
    assert!(domain.try_reserve().is_ok());
    assert_eq!(domain.snapshot().charged, usize::MAX);
}

#[test]
fn static_run_walks_from_claim_to_drive() {
    let mut supervisor = supervisor_with_capacity(4);
    let claim = match supervisor.owner().begin_run(3) {
        Ok(RunStep::PollTrigger(claim)) => claim,
        _ => panic!("a run with tasks looks at its trigger first"),
    };
    let claim = match SupervisorCore::polled(claim, false, false) {
        RunStep::Reserve(claim) => claim,
        _ => panic!("nothing stops the run"),
    };
    let claim = match supervisor.owner().reserve_batch_in(claim, 3, true, Ok(())) {
        Ok(RunStep::StartBatch(claim)) => claim,
        _ => panic!("the budget has room"),
    };
    assert_eq!(supervisor.ownership_snapshot().charged, 3);
    assert!(matches!(
        supervisor.owner().started_batch(claim, Ok(())),
        Ok(RunStep::Enqueue)
    ));
    assert!(SupervisorCore::batch_wait(false, false).is_none());
    assert!(matches!(
        SupervisorCore::batch_wait(true, true),
        Some(RunStep::JoinStarted)
    ));
    assert!(matches!(
        SupervisorCore::batch_wait(false, true),
        Some(RunStep::JoinTrigger)
    ));
    assert!(matches!(
        supervisor.owner().batch_decided(Ok(())),
        Ok(RunStep::Drive)
    ));
    assert!(matches!(
        supervisor
            .owner()
            .batch_decided(Err(RuntimeError::ShuttingDown)),
        Err(RuntimeError::ShuttingDown)
    ));
    assert!(matches!(
        SupervisorCore::drive_shutdown(RunWake::RegistryEmpty),
        (RunStep::JoinTrigger, Some(ShutdownTrigger::Natural))
    ));
    assert!(matches!(
        SupervisorCore::drive_shutdown(RunWake::ShutdownStarted),
        (RunStep::JoinStarted, None)
    ));
    assert!(matches!(
        supervisor.owner().begin_run(0),
        Err(RuntimeError::AlreadyRunning)
    ));
}

#[test]
fn static_run_joins_a_shutdown_that_came_first() {
    let mut started = supervisor();
    let claim = match started.owner().begin_run(1) {
        Ok(RunStep::PollTrigger(claim)) => claim,
        _ => panic!("a run with tasks looks at its trigger first"),
    };
    let claim = match SupervisorCore::polled(claim, true, true) {
        RunStep::JoinStartedThenRelease(claim) => claim,
        _ => panic!("the shutdown came first"),
    };
    assert!(
        matches!(
            started.owner().begin_run(1),
            Err(RuntimeError::AlreadyRunning)
        ),
        "the claim is held while the shutdown is awaited"
    );
    claim.release(started.owner());
    assert!(
        started.owner().begin_run(1).is_ok(),
        "the claim was released"
    );

    let mut triggered = supervisor();
    let claim = match triggered.owner().begin_run(1) {
        Ok(RunStep::PollTrigger(claim)) => claim,
        _ => panic!("a run with tasks looks at its trigger first"),
    };
    let claim = match SupervisorCore::polled(claim, false, true) {
        RunStep::StartForTrigger(claim) => claim,
        _ => panic!("the trigger won"),
    };
    assert!(matches!(
        triggered.owner().started_for_trigger(claim, Ok(())),
        Ok(RunStep::JoinTrigger)
    ));

    let mut closed = supervisor();
    close(&mut closed);
    assert!(matches!(
        closed.owner().begin_run(0),
        Ok(RunStep::JoinStarted)
    ));
    assert!(matches!(
        closed.owner().begin_run(0),
        Err(RuntimeError::AlreadyRunning)
    ));
    let _ = closed.owner().begin_shutdown(ShutdownTrigger::Requested);
    assert!(matches!(
        closed
            .owner()
            .batch_decided(Err(RuntimeError::ShuttingDown)),
        Ok(RunStep::JoinStarted)
    ));
}

#[test]
fn refused_reservation_releases_the_claim() {
    let mut supervisor = supervisor_with_capacity(1);
    assert!(supervisor
        .owner()
        .try_reserve_ownership_many(1, Ok(()))
        .is_ok());
    let claim = match supervisor.owner().begin_run(1) {
        Ok(RunStep::PollTrigger(claim)) => claim,
        _ => panic!("the whole budget would do"),
    };
    assert!(matches!(
        supervisor.owner().reserve_batch_in(claim, 1, true, Ok(())),
        Err(RuntimeError::ResourceLimitReached { limit: 1, .. })
    ));
    assert!(supervisor.owner().begin_run(1).is_ok());
}

#[test]
fn first_trigger_owns_shutdown_and_everyone_gets_its_outcome() {
    let mut supervisor = supervisor();
    let core = supervisor.owner();
    assert!(core.shutdown_outcome(false).is_none());
    match core.begin_shutdown(ShutdownTrigger::Requested) {
        ShutdownEntry::Owner {
            trigger: ShutdownTrigger::Requested,
            event: Some(event),
        } => assert_eq!(event.kind, EventKind::ShutdownRequested),
        _ => panic!("the first trigger installs the operation"),
    }
    assert!(core.is_shutting_down());
    assert!(matches!(
        core.begin_shutdown(ShutdownTrigger::Natural),
        ShutdownEntry::Join
    ));
    assert!(!core.abandon(), "a cleanup owner exists");
    core.finish_shutdown(ShutdownOutcome::GraceExceeded {
        grace: Duration::from_secs(1),
        stuck: vec![String::from("worker")],
    });
    for _ in 0..2 {
        let outcome = core.shutdown_outcome(false).expect("cached");
        match outcome.into_result(|_, _| io::Error::other("unused")) {
            Err(RuntimeError::GraceExceeded { grace, stuck }) => {
                assert_eq!(grace, Duration::from_secs(1));
                assert_eq!(stuck, vec!["worker"]);
            }
            _ => panic!("the cached outcome is returned"),
        }
    }
}

#[test]
fn natural_shutdown_is_silent_and_lost_owners_are_unclean() {
    let mut supervisor = supervisor();
    assert!(matches!(
        supervisor.owner().begin_shutdown(ShutdownTrigger::Natural),
        ShutdownEntry::Owner { event: None, .. }
    ));
    let lost = supervisor.owner().shutdown_outcome(true).expect("unclean");
    assert!(matches!(
        lost.into_result(|_, _| io::Error::other("unused")),
        Err(RuntimeError::ShuttingDown)
    ));
}

#[test]
fn signal_setup_failure_reaches_every_caller() {
    let source = Arc::new(io::Error::new(io::ErrorKind::AddrInUse, "in use"));
    let outcome = match resolve_shutdown(ShutdownTrigger::SignalSetupFailed(source)) {
        Resolution::FenceOnly(outcome) => outcome,
        Resolution::Drain => panic!("signal failure skips the drain"),
    };
    let copy = outcome.clone();
    for outcome in [outcome, copy] {
        match outcome.into_result(|kind, source| io::Error::new(kind, source.to_string())) {
            Err(error) => {
                assert!(error.to_string().contains("in use"));
                assert_eq!(
                    error.source().map(io::Error::kind),
                    Some(io::ErrorKind::AddrInUse)
                );
            }
            Ok(()) => panic!("the failure is returned"),
        }
    }
    assert!(matches!(
        resolve_shutdown(ShutdownTrigger::Natural),
        Resolution::Drain
    ));
}

#[test]
fn signal_setup_failure_keeps_its_os_code_for_every_caller() {
    let outcome = ShutdownOutcome::SignalSetupFailed {
        source: Arc::new(io::Error::from_raw_os_error(13)),
    };
    for outcome in [outcome.clone(), outcome] {
        match outcome.into_result(|_, _| panic!("a code needs no wrapping")) {
            Err(error) => {
                let source = error.source().expect("the source is kept");
                assert_eq!(source.raw_os_error(), Some(13));
                assert_eq!(source.kind(), io::Error::from_raw_os_error(13).kind());
            }
            Ok(()) => panic!("the failure is returned"),
        }
    }
    assert!(matches!(
        rebuild_plan(Some(13), io::ErrorKind::Other),
        Rebuild::FromOsCode(13)
    ));
    assert!(matches!(
        rebuild_plan(None, io::ErrorKind::AddrInUse),
        Rebuild::Wrap(io::ErrorKind::AddrInUse)
    ));
}

#[test]
fn abandoned_runtime_closes_admission() {
    let mut supervisor = supervisor();
    assert!(supervisor.owner().abandon());
    assert!(supervisor.owner().is_shutting_down());
}

#[test]
fn drain_names_everything_that_is_stuck() {
    let grace = Duration::from_secs(2);
    let clean = drain_with_grace(Ok(()), grace, vec![], vec![]);
    assert!(clean.result.is_ok());
    assert_eq!(
        clean.event.map(|event| event.kind),
        Some(EventKind::AllStoppedWithinGrace)
    );
    let stuck = drain_with_grace(
        Ok(()),
        grace,
        vec![String::from("forced")],
        vec![String::from("pending")],
    );
    match &stuck.result {
        Err(RuntimeError::GraceExceeded { grace: g, stuck }) => {
            assert_eq!(*g, grace);
            assert_eq!(stuck, &vec!["forced", "pending"]);
        }
        _ => panic!("stuck tasks exceed the grace"),
    }
    assert_eq!(
        stuck.event.map(|event| event.kind),
        Some(EventKind::GraceExceeded)
    );
    assert!(matches!(
        ShutdownOutcome::from_drain_result(stuck.result),
        ShutdownOutcome::GraceExceeded { .. }
    ));
    let unfenced = drain_with_grace(Err(RuntimeError::ShuttingDown), grace, vec![], vec![]);
    assert!(unfenced.event.is_none());
    assert!(matches!(
        ShutdownOutcome::from_drain_result(unfenced.result),
        ShutdownOutcome::ShuttingDown
    ));
    assert!(matches!(
        ShutdownOutcome::from_drain_result(Ok(())),
        ShutdownOutcome::Completed
    ));
}

#[test]
fn every_cleanup_phase_is_attempted() {
    let mut tail = CleanupTail::new();
    let mut phases = Vec::new();
    while tail.phase() != CleanupPhase::Done {
        phases.push(tail.phase());
        let _ = tail.advance(PhaseResult::Unclean);
    }
    assert_eq!(
        phases,
        vec![
            CleanupPhase::Controller,
            CleanupPhase::CancelRuntime,
            CleanupPhase::Registry,
            CleanupPhase::Relay,
            CleanupPhase::Subscribers
        ]
    );
    assert!(!tail.is_clean());

    let (clean, events) = CleanupTail::finish_shutdown_cleanup(
        PhaseResult::Clean,
        PhaseResult::Panicked(String::from("boom")),
        PhaseResult::Clean,
        PhaseResult::Panicked(String::from("bang")),
    );
    assert!(!clean);
    let reasons: Vec<String> = events
        .into_iter()
        .map(|event| event.reason.unwrap())
        .collect();
    assert_eq!(
        reasons,
        vec![
            "registry cleanup panic: boom",
            "subscriber worker cleanup panic: bang"
        ]
    );
    let (clean, events) = CleanupTail::finish_shutdown_cleanup(
        PhaseResult::Clean,
        PhaseResult::Clean,
        PhaseResult::Clean,
        PhaseResult::Clean,
    );
    assert!(clean && events.is_empty());
}

#[test]
fn unclean_tail_hides_the_outcome() {
    let (outcome, event) = branch_outcome(Ok(ShutdownOutcome::Completed));
    assert!(matches!(outcome, ShutdownOutcome::Completed));
    assert!(event.is_none());
    let outcome = perform_shutdown(outcome, true);
    assert!(matches!(outcome, ShutdownOutcome::Completed));
    let outcome = perform_shutdown(outcome, false);
    assert!(matches!(outcome, ShutdownOutcome::ShuttingDown));
    let (outcome, event) = branch_outcome(Err(String::from("boom")));
    assert!(matches!(outcome, ShutdownOutcome::ShuttingDown));
    assert_eq!(
        event.and_then(|event| event.reason).as_deref(),
        Some("drain panic: boom")
    );
    let (outcome, event) = owner_outcome(Err(String::from("boom")));
    assert!(matches!(outcome, ShutdownOutcome::ShuttingDown));
    assert_eq!(
        event.and_then(|event| event.reason).as_deref(),
        Some("owner panic: boom")
    );
    let (outcome, event) = owner_outcome(Ok(ShutdownOutcome::Completed));
    assert!(matches!(outcome, ShutdownOutcome::Completed) && event.is_none());
}

fn messages(count: usize) -> Vec<BusMessage> {
    (0..count)
        .map(|_| BusMessage::Event(Event::new(EventKind::TaskAdded)))
        .collect()
}

#[test]
fn tail_drain_respects_capacity_and_counts_the_rest() {
    let mut retained = messages(2);
    retained[0] = BusMessage::Lagged {
        dropped: 3,
        event: Event::new(EventKind::TaskAdded),
    };
    let events = drain_pending(retained, 2, 0);
    assert_eq!(events.len(), 3);
    assert_eq!(events[2].kind, EventKind::SubscriberOverflow);
    assert_eq!(events[2].dropped, Some(3));
    assert_eq!(events[2].reason.as_deref(), Some("lagged(3)"));
    assert_eq!(events[2].task.as_deref(), Some("subscriber_listener"));

    let events = drain_pending(messages(1026), 2048, 0);
    assert_eq!(SHUTDOWN_RELAY_DRAIN_LIMIT, 1024);
    assert_eq!(events.len(), 1025);
    assert_eq!(events[1024].dropped, Some(2));

    let events = drain_pending(messages(1), 8, 4);
    assert_eq!(events.len(), 2);
    assert_eq!(events[1].dropped, Some(4));
    assert_eq!(drain_pending(messages(3), 8, 0).len(), 3);
    let saturated = drain_pending(
        vec![BusMessage::Lagged {
            dropped: u64::MAX,
            event: Event::new(EventKind::TaskAdded),
        }],
        8,
        9,
    );
    assert_eq!(saturated[1].dropped, Some(u64::MAX));
}

#[test]
fn lag_diagnostic_follows_its_event() {
    let events = relay_message(BusMessage::Lagged {
        dropped: 12,
        event: Event::new(EventKind::TaskRemoved),
    });
    assert_eq!(events[0].kind, EventKind::TaskRemoved);
    assert_eq!(events[1].reason.as_deref(), Some("lagged(12)"));
    assert_eq!(events[1].dropped, Some(12));
    let events = relay_message(BusMessage::Event(Event::new(EventKind::TaskAdded)));
    assert_eq!(events.len(), 1);
    assert!(join_subscriber_listener(None).is_none());
    assert_eq!(
        join_subscriber_listener(Some(String::from("cancelled")))
            .and_then(|event| event.reason)
            .as_deref(),
        Some("listener join failed: cancelled")
    );
}

fn bus(capacity: usize) -> BusQueue {
    BusQueue::new(NonZeroUsize::new(capacity).unwrap())
}

#[test]
fn a_full_bus_loses_its_oldest_event_and_counts_it() {
    let mut bus = bus(2);
    assert_eq!(bus.retained_capacity(), 2);
    assert!(bus.take().is_none());

    bus.publish(Event::new(EventKind::TaskAdded));
    bus.publish(Event::new(EventKind::TaskRemoved));
    bus.publish(Event::new(EventKind::AttemptStarting));
    match bus.take() {
        Some(BusMessage::Lagged { dropped, event }) => {
            assert_eq!(dropped, 1);
            assert_eq!(event.kind, EventKind::TaskRemoved);
        }
        other => panic!("unexpected message: {other:?}"),
    }
    match bus.take() {
        Some(BusMessage::Event(event)) => assert_eq!(event.kind, EventKind::AttemptStarting),
        other => panic!("unexpected message: {other:?}"),
    }
    assert!(bus.take().is_none());
}

#[test]
fn closing_the_bus_hands_out_what_it_retains() {
    let mut bus = bus(2);
    bus.publish(Event::new(EventKind::TaskAdded));
    bus.publish(Event::new(EventKind::TaskRemoved));
    bus.publish(Event::new(EventKind::AttemptStarting));
    let (messages, skipped) = bus.close();
    assert_eq!(skipped, 0);
    assert_eq!(messages.len(), 2);
    assert!(matches!(messages[0], BusMessage::Lagged { dropped: 1, .. }));
    assert!(matches!(messages[1], BusMessage::Event(_)));

    bus.publish(Event::new(EventKind::TaskAdded));
    assert!(bus.take().is_none());
}
