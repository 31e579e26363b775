use std::time::Duration;

use taskvisor::error::TaskError;
use taskvisor::events::EventKind;
use taskvisor::identity::TaskId;
use taskvisor::runner::{
    panic_to_error, run_once, AttemptEnd, AttemptFailure, AttemptRun, CatchPanic, CaughtFailure,
    CaughtPanic, DropDiagnostic, Polled,
};

type Source = String;

const ELAPSED: Duration = Duration::from_millis(5);

fn run(timeout: Option<Duration>) -> AttemptRun {
    AttemptRun {
        task_name: String::from("worker"),
        timeout,
        attempt: 3,
        id: TaskId::new(8),
    }
}

fn panic_with(message: &str) -> CaughtPanic {
    CaughtPanic {
        message: Some(message.to_string()),
    }
}

#[test]
fn panics_become_retryable_failures() {
    let error: TaskError<Source> = panic_to_error(Some(String::from("boom")));
    assert_eq!(error.to_string(), "execution failed: task panicked: boom");
    assert!(error.is_retryable());
    let opaque: TaskError<Source> = panic_to_error(None);
    assert_eq!(
        opaque.to_string(),
        "execution failed: task panicked: non-string panic payload"
    );
}

#[test]
fn only_a_positive_timeout_arms_the_timer() {
    assert_eq!(run(None).timer(), None);
    assert_eq!(run(Some(Duration::ZERO)).timer(), None);
    assert_eq!(
        run(Some(Duration::from_secs(1))).timer(),
        Some(Duration::from_secs(1))
    );
}

#[test]
fn every_end_has_one_terminal_event() {
    let success = run_once::<Source>(&run(None), AttemptEnd::Finished(Ok(())), ELAPSED);
    assert_eq!(success.event.kind, EventKind::AttemptSucceeded);
    assert_eq!(success.event.attempt, Some(3));
    assert_eq!(success.event.duration, Some(ELAPSED));
    assert_eq!(success.event.task.as_deref(), Some("worker"));
    assert_eq!(success.event.id, Some(TaskId::new(8)));
    assert!(success.result.is_ok());

    let canceled = run_once::<Source>(
        &run(None),
        AttemptEnd::Finished(Err(CaughtFailure {
            error: TaskError::Canceled,
            cleanup_panicked: true,
        })),
        ELAPSED,
    );
    assert_eq!(canceled.event.kind, EventKind::AttemptCanceled);
    let failure = canceled.result.unwrap_err();
    assert!(matches!(failure.error, TaskError::Canceled));
    assert!(failure.cleanup_panicked);

    let failed = run_once::<Source>(
        &run(None),
        AttemptEnd::Finished(Err(CaughtFailure {
            error: TaskError::fail("boom").with_exit_code(7),
            cleanup_panicked: false,
        })),
        ELAPSED,
    );
    assert_eq!(failed.event.kind, EventKind::AttemptFailed);
    assert_eq!(
        failed.event.reason.as_deref(),
        Some("execution failed: boom")
    );
    assert_eq!(failed.event.exit_code, Some(7));
    let failure = failed.result.unwrap_err();
    assert_eq!(failure.reason, "execution failed: boom");
    assert_eq!(failure.exit_code, Some(7));
}

#[test]
fn timeout_returned_by_the_task_is_an_ordinary_failure() {
    let report = run_once::<Source>(
        &run(Some(Duration::from_secs(1))),
        AttemptEnd::Finished(Err(CaughtFailure {
            error: TaskError::timeout(Duration::from_secs(2)),
            cleanup_panicked: false,
        })),
        ELAPSED,
    );
    assert_eq!(report.event.kind, EventKind::AttemptFailed);
    assert_eq!(report.event.timeout, None);
}

#[test]
fn configured_timer_reports_a_timeout_unless_cleanup_panicked() {
    let timeout = Duration::from_secs(1);
    let report = run_once::<Source>(
        &run(Some(timeout)),
        AttemptEnd::TimedOut {
            timeout,
            disposal: None,
        },
        ELAPSED,
    );
    assert_eq!(report.event.kind, EventKind::AttemptTimedOut);
    assert_eq!(report.event.timeout, Some(timeout));
    let failure = report.result.unwrap_err();
    assert!(matches!(failure.error, TaskError::Timeout { .. }));
    assert_eq!(failure.reason, "timed out after 1s");

    let report = run_once::<Source>(
        &run(Some(timeout)),
        AttemptEnd::TimedOut {
            timeout,
            disposal: Some(CaughtFailure {
                error: TaskError::fail("drop"),
                cleanup_panicked: true,
            }),
        },
        ELAPSED,
    );
    assert_eq!(report.event.kind, EventKind::AttemptFailed);
    assert!(report.result.unwrap_err().cleanup_panicked);
}

#[test]
fn spawn_panic_is_an_attempt_failure() {
    let report = run_once::<Source>(
        &run(None),
        AttemptEnd::SpawnPanicked {
            panic: panic_with("spawn"),
            payload_poisoned: true,
        },
        ELAPSED,
    );
    assert_eq!(report.event.kind, EventKind::AttemptFailed);
    assert_eq!(
        report.event.reason.as_deref(),
        Some("execution failed: task panicked: spawn")
    );
    assert!(report.result.unwrap_err().cleanup_panicked);
}

#[test]
fn boundary_destroys_its_future_once() {
    let mut boundary = CatchPanic::new();
    assert!(boundary.poll::<Source>(Polled::Pending).is_none());
    assert!(boundary.live());
    let turn = boundary.poll::<Source>(Polled::Ready {
        result: Err(TaskError::fail("x")),
        drop_panic: None,
    });
    assert!(matches!(turn, Some(Err(failure)) if !failure.cleanup_panicked));
    assert!(!boundary.live());
    assert!(boundary
        .dispose::<Source>(Some(panic_with("never")))
        .is_none());

    let mut boundary = CatchPanic::new();
    let failure = boundary
        .dispose::<Source>(Some(panic_with("drop")))
        .unwrap();
    assert!(failure.cleanup_panicked);
    let mut boundary = CatchPanic::new();
    assert!(boundary.dispose::<Source>(None).is_none());
    assert!(!boundary.live());
}

#[test]
fn destructor_panic_wins_over_the_result() {
    let mut boundary = CatchPanic::new();
    let turn = boundary.poll::<Source>(Polled::Ready {
        result: Ok(()),
        drop_panic: Some(panic_with("drop")),
    });
    match turn {
        Some(Err(failure)) => {
            assert!(failure.cleanup_panicked);
            assert_eq!(
                failure.error.to_string(),
                "execution failed: task panicked: drop"
            );
        }
        _ => panic!("the destructor panic is reported"),
    }
}

#[test]
fn panicked_poll_remembers_nested_panics() {
    for (payload_poisoned, drop_panicked, expected) in [
        (false, false, false),
        (true, false, true),
        (false, true, true),
    ] {
        let mut boundary = CatchPanic::new();
        let turn = boundary.poll::<Source>(Polled::Panicked {
            panic: panic_with("poll"),
            payload_poisoned,
            drop_panicked,
        });
        assert!(matches!(turn, Some(Err(failure)) if failure.cleanup_panicked == expected));
    }
}

#[test]
fn abort_time_diagnostic_names_the_task() {
    let diagnostic = DropDiagnostic {
        task_name: String::from("worker"),
        id: TaskId::new(8),
        attempt: 2,
    };
    let event = diagnostic.publish::<Source>(&CaughtFailure {
        error: TaskError::fail("drop"),
        cleanup_panicked: true,
    });
    assert_eq!(event.kind, EventKind::RuntimeFailure);
    assert_eq!(
        event.reason.as_deref(),
        Some("future_drop_panicked task=worker: execution failed: drop")
    );
    assert_eq!(event.attempt, Some(2));
    let failure = AttemptFailure::new(TaskError::<Source>::fatal("stop"));
    assert_eq!(failure.reason, "fatal error (no retry): stop");
    assert!(!failure.cleanup_panicked);
}
