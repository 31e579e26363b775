use std::io;
use std::time::Duration;

use taskvisor::error::{BuildError, Error, RuntimeError, TaskError};
use taskvisor::identity::TaskId;

#[test]
fn build_resource_error_preserves_public_diagnostics() {
    let error = BuildError::ResourceLimitReached {
        resource: "owned_user_lifetimes",
        limit: 1024,
    };
    assert_eq!(error.as_label(), "build_resource_limit_reached");
    assert_eq!(
        error.to_string(),
        "resource limit reached for owned_user_lifetimes: 1024"
    );
}

#[test]
fn build_capacity_error_preserves_public_diagnostics() {
    let error = BuildError::CapacityTooLarge {
        field: "subscriber_queue_capacity",
        value: 17,
        max: 16,
    };
    assert_eq!(error.as_label(), "build_capacity_too_large");
    assert_eq!(
        error.to_string(),
        "subscriber_queue_capacity must not exceed 16; got 17"
    );
}

#[test]
fn build_thread_start_error_preserves_copyable_public_diagnostics() {
    let error = BuildError::ThreadStartFailed {
        component: "destructor_isolation",
        worker: 2,
        kind: io::ErrorKind::WouldBlock,
        raw_os_error: Some(11),
    };
    assert_eq!(error.as_label(), "build_thread_start_failed");
    assert_eq!(
        error.to_string(),
        "failed to start destructor_isolation worker 2: WouldBlock (raw OS error: Some(11))"
    );
    let copied = error;
    assert_eq!(copied, error);
}

#[test]
fn build_thread_start_error_shows_missing_and_negative_codes() {
    let shown = |raw_os_error| {
        BuildError::ThreadStartFailed {
            component: "destructor_isolation",
            worker: 0,
            kind: io::ErrorKind::NotFound,
            raw_os_error,
        }
        .to_string()
    };
    assert_eq!(
        shown(None),
        "failed to start destructor_isolation worker 0: NotFound (raw OS error: None)"
    );
    assert_eq!(
        shown(Some(i32::MIN)),
        format!(
            "failed to start destructor_isolation worker 0: NotFound (raw OS error: {:?})",
            Some(i32::MIN)
        )
    );
}

#[test]
fn runtime_error_labels_are_stable() {
    let id = TaskId::new(7);
    let cases = vec![
        (
            RuntimeError::TokioRuntimeUnavailable,
            "runtime_tokio_runtime_unavailable",
        ),
        (
            RuntimeError::ThreadStartFailed {
                component: "subscriber_dispatch",
                source: io::Error::other("worker unavailable"),
            },
            "runtime_thread_start_failed",
        ),
        (
            RuntimeError::GraceExceeded {
                grace: Duration::from_secs(1),
                stuck: vec![String::from("worker")],
            },
            "runtime_grace_exceeded",
        ),
        (
            RuntimeError::TaskAlreadyExists {
                name: String::from("worker"),
            },
            "runtime_task_already_exists",
        ),
        (
            RuntimeError::ResourceLimitReached {
                resource: "registered_tasks",
                limit: 1,
            },
            "runtime_resource_limit_reached",
        ),
        (RuntimeError::CommandQueueFull, "runtime_command_queue_full"),
        (
            RuntimeError::OwnershipAdmissionTimeout {
                timeout: Duration::from_millis(25),
            },
            "runtime_ownership_admission_timeout",
        ),
        (
            RuntimeError::TaskTerminationTimeout {
                id,
                timeout: Duration::from_secs(1),
            },
            "runtime_task_termination_timeout",
        ),
        (
            RuntimeError::OutcomeUnavailable { id },
            "runtime_outcome_unavailable",
        ),
        (
            RuntimeError::SignalSetupFailed {
                source: io::Error::other("boom"),
            },
            "runtime_signal_setup_failed",
        ),
        (RuntimeError::ShuttingDown, "runtime_shutting_down"),
        (RuntimeError::AlreadyRunning, "runtime_already_running"),
    ];

    for (error, expected) in cases {
        assert_eq!(error.as_label(), expected, "{error:?}");
        assert_eq!(Error::from(error).as_label(), expected);
    }
}

#[test]
fn runtime_error_displays_are_stable() {
    assert_eq!(
        RuntimeError::TokioRuntimeUnavailable.to_string(),
        "runtime startup requires an active Tokio runtime"
    );

    let startup = RuntimeError::ThreadStartFailed {
        component: "subscriber_dispatch",
        source: io::Error::new(io::ErrorKind::WouldBlock, "thread limit"),
    };
    assert_eq!(
        startup.to_string(),
        "failed to start subscriber_dispatch thread: thread limit"
    );
    assert_eq!(
        startup.source().map(io::Error::kind),
        Some(io::ErrorKind::WouldBlock)
    );

    assert_eq!(
        RuntimeError::CommandQueueFull.to_string(),
        "management command queue is full"
    );
    let ownership = RuntimeError::OwnershipAdmissionTimeout {
        timeout: Duration::from_millis(25),
    };
    assert_eq!(
        ownership.to_string(),
        "timeout waiting for ownership admission after 25ms"
    );

    let id = TaskId::new(42);
    let error = RuntimeError::TaskTerminationTimeout {
        id,
        timeout: Duration::from_secs(1),
    };
    assert_eq!(
        error.to_string(),
        format!(
            "timeout waiting for task {} termination after 1s",
            id.to_string()
        )
    );
}

#[test]
fn remaining_runtime_messages_name_their_contents() {
    let id = TaskId::new(10);
    assert_eq!(
        RuntimeError::GraceExceeded {
            grace: Duration::from_millis(1500),
            stuck: vec![String::from("a"), String::from("b\"c")],
        }
        .to_string(),
        "shutdown timeout 1.5s exceeded; logically force-aborted: [\"a\", \"b\\\"c\"]"
    );
    assert_eq!(
        RuntimeError::TaskAlreadyExists {
            name: String::from("worker")
        }
        .to_string(),
        "task name 'worker' already exists"
    );
    assert_eq!(
        RuntimeError::ResourceLimitReached {
            resource: "registered_tasks",
            limit: 105
        }
        .to_string(),
        "resource limit reached for registered_tasks: 105"
    );
    assert_eq!(
        RuntimeError::OutcomeUnavailable { id }.to_string(),
        "final outcome for task 10 is unavailable"
    );
    assert_eq!(
        RuntimeError::ShuttingDown.to_string(),
        "supervisor is shutting down"
    );
    assert_eq!(
        RuntimeError::AlreadyRunning.to_string(),
        "supervisor run() was already started"
    );
    assert_eq!(
        Error::from(RuntimeError::ShuttingDown).to_string(),
        "supervisor is shutting down"
    );
    assert!(RuntimeError::ShuttingDown.source().is_none());
}

#[test]
fn timeout_constructor_is_const_and_preserves_payload_and_display() {
    let timeout: TaskError<io::Error> = TaskError::timeout(Duration::from_secs(1));

    assert!(matches!(
        &timeout,
        TaskError::Timeout { timeout, .. } if *timeout == Duration::from_secs(1)
    ));
    assert_eq!(timeout.to_string(), "timed out after 1s");
}

#[test]
fn fail_constructor_preserves_reason_and_is_sourceless() {
    let e: TaskError<io::Error> = TaskError::fail("logical");
    assert_eq!(e.to_string(), "execution failed: logical");
    assert!(e.source().is_none());
}

#[test]
fn fail_from_preserves_source_chain_and_io_kind() {
    let io = io::Error::new(io::ErrorKind::PermissionDenied, "denied");
    let e = TaskError::fail_from(io);

    assert!(e.to_string().contains("denied"));
    let src = e.source().expect("source must be present");
    assert_eq!(src.kind(), io::ErrorKind::PermissionDenied);
    assert_eq!(
        e.into_source().map(|source| source.kind()),
        Some(io::ErrorKind::PermissionDenied)
    );
}

#[test]
fn with_exit_code_and_with_source_builders_compose() {
    let io = io::Error::other("boom");
    let e: TaskError<io::Error> = TaskError::fail("upload failed")
        .with_exit_code(13)
        .with_source(io);

    assert_eq!(e.exit_code(), Some(13));
    assert_eq!(e.to_string(), "execution failed: upload failed");
    assert!(e.source().is_some());
}

#[test]
fn classification_and_exit_codes_cover_every_task_error_variant() {
    let dynamic: Option<i32> = None;
    let cases: Vec<(&str, TaskError<io::Error>, &str, Option<i32>, bool, bool)> = vec![
        (
            "fail",
            TaskError::fail("x").with_exit_code(7),
            "task_failed",
            Some(7),
            true,
            false,
        ),
        (
            "fatal",
            TaskError::fatal("x").with_exit_code(137),
            "task_fatal",
            Some(137),
            false,
            true,
        ),
        (
            "optional exit code",
            TaskError::fail("y").with_exit_code(dynamic),
            "task_failed",
            None,
            true,
            false,
        ),
        (
            "timeout",
            TaskError::timeout(Duration::from_secs(1)),
            "task_timeout",
            None,
            true,
            false,
        ),
        (
            "canceled",
            TaskError::Canceled,
            "task_canceled",
            None,
            false,
            false,
        ),
    ];

    for (case, error, label, exit_code, retryable, fatal) in cases {
        assert_eq!(error.as_label(), label, "{case}");
        assert_eq!(error.exit_code(), exit_code, "{case}");
        assert_eq!(error.is_retryable(), retryable, "{case}");
        assert_eq!(error.is_fatal(), fatal, "{case}");
    }
}

#[test]
fn fatal_from_is_fatal_and_carries_source() {
    let io = io::Error::new(io::ErrorKind::NotFound, "missing");
    let e = TaskError::fatal_from(io);

    assert!(e.is_fatal());
    assert!(!e.is_retryable());

    let src = e.source().expect("source present");
    assert_eq!(src.kind(), io::ErrorKind::NotFound);
}

#[test]
fn signal_setup_failed_exposes_io_source() {
    let io = io::Error::new(io::ErrorKind::AddrInUse, "in use");
    let e = RuntimeError::SignalSetupFailed { source: io };

    assert!(e.to_string().contains("in use"));

    let src = e.source().expect("source present");
    assert_eq!(src.kind(), io::ErrorKind::AddrInUse);
}

#[test]
fn timeout_and_cancellation_ignore_exit_code_and_source() {
    let canceled: TaskError<io::Error> = TaskError::Canceled;
    let canceled = canceled
        .with_exit_code(5)
        .with_source(io::Error::other("boom"));
    assert_eq!(canceled.exit_code(), None);
    assert!(canceled.into_source().is_none());

    let fatal: TaskError<io::Error> = TaskError::fatal("stop").with_exit_code(9);
    assert_eq!(fatal.to_string(), "fatal error (no retry): stop");
    assert_eq!(fatal.with_exit_code(None).exit_code(), None);
    let timeout: TaskError<io::Error> = TaskError::timeout(Duration::from_secs(2));
    assert_eq!(timeout.with_exit_code(1).exit_code(), None);
    let plain: TaskError<io::Error> = TaskError::Canceled;
    assert_eq!(plain.to_string(), "context canceled");
}
