use std::sync::mpsc::sync_channel;
use std::time::{Duration, SystemTime};

use taskvisor::channel::undelivered;
use taskvisor::config::NonZeroU32;
use taskvisor::event;
use taskvisor::identity::TaskId;
use taskvisor::order::{insert_name, name_precedes, sorted};
use taskvisor::policies::{BackoffPolicy, RestartPolicy};
use taskvisor::runtime::ownership::own_task;
use taskvisor::task_defaults::TaskDefaults;
use taskvisor::task_metadata::{
    snapshot_of, snapshot_task_name, MetadataExecutor, NameJob, NamePanic, TaskNameSnapshot,
    WORKER_COUNT,
};
use taskvisor::tasks::{Setting, TaskSpec};

type Source = String;

#[test]
fn stamped_event_starts_plain_and_takes_every_attachment() {
    let event = event::Event::now(event::EventKind::TaskFailed);
    assert_eq!(event.kind, event::EventKind::TaskFailed);
    assert!(event.task.is_none() && event.error.is_none() && event.attempt.is_none());
    assert!(event.timeout.is_none() && event.delay.is_none());
    let full = event
        .clone()
        .with_task("worker")
        .with_error(String::from("boom"))
        .with_timeout(Duration::from_secs(1))
        .with_delay(Duration::from_secs(2))
        .with_attempt(3);
    assert_eq!(full.task.as_deref(), Some("worker"));
    assert_eq!(full.error.as_deref(), Some("boom"));
    assert_eq!(full.timeout, Some(Duration::from_secs(1)));
    assert_eq!(full.delay, Some(Duration::from_secs(2)));
    assert_eq!(full.attempt, Some(3));
    assert_eq!(full.at, event.at);
}

#[test]
fn identity_shows_its_number() {
    for raw in [0, 9, 10, 18_446_744_073_709_551_615] {
        let id = TaskId::new(raw);
        assert_eq!(id.get(), raw);
        assert_eq!(id.to_string(), format!("{raw}"));
    }
}

#[test]
fn explicit_settings_win_over_defaults() {
    let retries = NonZeroU32::new(2).unwrap();
    let defaults = TaskDefaults::default()
        .with_timeout(Duration::from_secs(5))
        .with_max_retries(retries);
    let inherited = TaskSpec::restartable(String::from("worker")).resolve(&defaults);
    assert_eq!(inherited.restart, RestartPolicy::OnFailure);
    assert_eq!(inherited.timeout, Some(Duration::from_secs(5)));
    assert_eq!(inherited.max_retries, Some(retries));
    assert_eq!(inherited.backoff.first(), Duration::from_millis(200));

    let mut spec = TaskSpec::once(String::from("worker"));
    spec.timeout = Setting::Explicit(Some(Duration::ZERO));
    spec.max_retries = Setting::Explicit(None);
    spec.backoff = Setting::Explicit(BackoffPolicy::constant(Duration::from_secs(1)));
    let explicit = spec.resolve(&defaults);
    assert_eq!(explicit.restart, RestartPolicy::Never);
    assert_eq!(explicit.timeout, None);
    assert_eq!(explicit.max_retries, None);
    assert_eq!(explicit.backoff.first(), Duration::from_secs(1));
}

#[test]
fn names_are_ordered_by_their_bytes() {
    let mut names = Vec::new();
    for name in ["b", "a", "é", "ab", "Z", "b", ""] {
        insert_name(&mut names, name.to_string());
    }
    let mut expected = vec!["b", "a", "é", "ab", "Z", ""];
    expected.sort_unstable();
    assert_eq!(names, expected);
    assert!(name_precedes(&String::from("a"), &String::from("ab")));
    assert!(!name_precedes(&String::from("ab"), &String::from("a")));
    assert!(!name_precedes(&String::from("a"), &String::from("a")));
    assert_eq!(sorted(&vec![3, 1, 2]), vec![1, 2, 3]);
}

#[test]
fn metadata_without_workers_returns_the_task() {
    let (sender, _receiver) = sync_channel::<NameJob<Source>>(1);
    let executor = MetadataExecutor::start(0, sender);
    let owned = own_task(TaskSpec::once(String::from("worker")), 3);
    match snapshot_task_name(&executor, owned) {
        Err(owned) => assert_eq!(owned.cleanup.ticket, 3),
        Ok(_) => panic!("nobody takes the job"),
    }
}

#[test]
fn metadata_queue_takes_what_fits_and_returns_the_rest() {
    let (sender, receiver) = sync_channel::<NameJob<Source>>(1);
    let executor = MetadataExecutor::start(WORKER_COUNT, sender);
    let first = own_task(TaskSpec::once(String::from("first")), 1);
    let mut waiting = snapshot_task_name(&executor, first)
        .unwrap_or_else(|_| panic!("the queue has room"));
    let second = own_task(TaskSpec::once(String::from("second")), 2);
    match snapshot_task_name(&executor, second) {
        Err(owned) => assert_eq!(owned.cleanup.ticket, 2),
        Ok(_) => panic!("the queue is full"),
    }
    let job = receiver.recv().unwrap();
    assert!(job.finish(Ok(String::from("first"))).is_none());
    match waiting.try_recv() {
        Ok(TaskNameSnapshot::Ready { owned, task_name }) => {
            assert_eq!(owned.cleanup.ticket, 1);
            assert_eq!(task_name, "first");
        }
        _ => panic!("the name arrives with the task"),
    }
    drop(receiver);
    let third = own_task(TaskSpec::once(String::from("third")), 3);
    assert!(snapshot_task_name(&executor, third).is_err());
}

#[test]
fn panicked_metadata_keeps_the_task() {
    let owned = own_task::<Source>(TaskSpec::once(String::from("worker")), 3);
    let panic = NamePanic {
        message: None,
        payload: 9,
    };
    match snapshot_of(owned, Err(panic)) {
        TaskNameSnapshot::Panicked { owned, message } => {
            assert_eq!(owned.cleanup.ticket, 3);
            assert_eq!(owned.cleanup.payload, Some(9));
            assert_eq!(message, "non-string panic payload");
        }
        TaskNameSnapshot::Ready { .. } => panic!("the callback panicked"),
    }
    let (sender, receiver) = sync_channel::<NameJob<Source>>(1);
    let executor = MetadataExecutor::start(1, sender);
    let owned = own_task(TaskSpec::once(String::from("worker")), 4);
    let waiting = snapshot_task_name(&executor, owned);
    drop(waiting);
    let job = receiver.recv().unwrap();
    let unwanted = job.finish(Err(NamePanic {
        message: Some(String::from("boom")),
        payload: 10,
    }));
    assert!(matches!(
        unwanted,
        Some(TaskNameSnapshot::Panicked { message, .. }) if message == "boom"
    ));
}

#[test]
fn refused_metadata_comes_back_with_the_task() {
    assert!(undelivered::<TaskNameSnapshot<Source>>(Ok(())).is_none());
    let owned = own_task::<Source>(TaskSpec::once(String::from("worker")), 5);
    let refused = snapshot_of(owned, Ok(String::from("worker")));
    match undelivered(Err(refused)) {
        Some(TaskNameSnapshot::Ready { owned, task_name }) => {
            assert_eq!(owned.cleanup.ticket, 5);
            assert_eq!(task_name, "worker");
        }
        _ => panic!("a refused result is given back"),
    }
}

#[test]
fn stamped_event_carries_its_time() {
    let at = SystemTime::UNIX_EPOCH + Duration::from_secs(5);
    let event = event::Event::stamped(event::EventKind::TaskStopped, at);
    assert_eq!(event.at, at);
    assert_eq!(event.kind, event::EventKind::TaskStopped);
    assert!(event.task.is_none() && event.error.is_none() && event.attempt.is_none());
    assert!(event::Event::now(event::EventKind::TaskStopped).at > at);
}
