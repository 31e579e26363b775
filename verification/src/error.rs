//! Error type of each boundary.
//!
//! | Boundary                                           | Error type       |
//! |----------------------------------------------------|------------------|
//! | Checked configuration setters                      | `ConfigError`    |
//! | Supervisor construction                            | [`BuildError`]   |
//! | Runtime lifecycle, management, and outcome waiting | [`RuntimeError`] |
//! | One task attempt                                   | [`TaskError`]    |
//! | Code that combines runtime calls                   | [`Error`]        |
//!
//! Readable text is not a classification API. Match variants or use `as_label`.

use std::time::Duration;
use vstd::prelude::*;
use vstd::string::*;

use crate::identity::TaskId;
use crate::text::{
    append_optional_signed, append_size, decimal, duration_debug, name_views, names_debug,
    optional_signed, render_duration, render_names,
};

verus! {

/// `std::io::Error`, carried through, and asked for its operating-system code and category.
#[verifier::external_type_specification]
#[verifier::external_body]
pub struct ExIoError(std::io::Error);

/// `std::io::ErrorKind`, carried through and rendered.
#[verifier::external_type_specification]
#[verifier::external_body]
pub struct ExIoErrorKind(std::io::ErrorKind);

/// Text that `{:?}` gives for an I/O error category, such as `WouldBlock`.
pub uninterp spec fn io_kind_debug(kind: std::io::ErrorKind) -> Seq<char>;

/// Renders an I/O error category with its `Debug` form.
///
/// Wraps `format!("{:?}", kind)` of `std`. Trusted: the text depends on the category alone.
#[verifier::external_body]
fn render_io_kind(kind: std::io::ErrorKind) -> (text: String)
    ensures
        text@ == io_kind_debug(kind),
{
    format!("{:?}", kind)
}

/// `std::io::Error::raw_os_error`. Nothing is claimed of the code by itself.
pub assume_specification[ std::io::Error::raw_os_error ](error: &std::io::Error) -> (code: Option<
    i32,
>);

/// `std::io::Error::kind`. Nothing is claimed of the category by itself.
pub assume_specification[ std::io::Error::kind ](error: &std::io::Error) -> (kind:
    std::io::ErrorKind);

/// `std::io::Error::from_raw_os_error`. Trusted: whoever asks the error for its operating-system
/// code is told the code it was made from, and whoever asks it for its category is told the one
/// that every other error with that code tells, since the category of an error that comes from the
/// system is inferred from its code alone.
pub assume_specification[ std::io::Error::from_raw_os_error ](code: i32) -> (error: std::io::Error)
    ensures
        forall|read: Option<i32>| #[trigger]
            call_ensures(std::io::Error::raw_os_error, (&error,), read) ==> read == Some(code),
        forall|other: std::io::Error, kind: std::io::ErrorKind, own: std::io::ErrorKind|
            #![trigger call_ensures(std::io::Error::kind, (&other,), kind),
                call_ensures(std::io::Error::kind, (&error,), own)]
            call_ensures(std::io::Error::raw_os_error, (&other,), Some(code)) && call_ensures(
                std::io::Error::kind,
                (&other,),
                kind,
            ) && call_ensures(std::io::Error::kind, (&error,), own) ==> own == kind,
;

/// Whether `text` is `prefix` followed by what `to_string` gives for the source.
pub open spec fn reads_with_source(
    text: Seq<char>,
    prefix: Seq<char>,
    source: std::io::Error,
) -> bool {
    exists|shown: String| #[trigger]
        to_string_from_display_ensures::<std::io::Error>(&source, shown) && text == prefix + shown@
}

/// Build-time failure before a supervisor is returned.
#[non_exhaustive]
#[derive(Clone, Copy, Debug, Eq, PartialEq)]
pub enum BuildError {
    /// Required user-owned lifetimes exceed the supervisor's ownership budget.
    ResourceLimitReached {
        /// Stable resource name suitable for diagnostics.
        resource: &'static str,
        /// Reported supervisor-local limit.
        limit: usize,
    },
    /// A bounded capacity exceeds the structural async-capacity limit.
    CapacityTooLarge {
        /// Stable configuration field name.
        field: &'static str,
        /// Rejected value.
        value: usize,
        /// Largest value accepted for this field.
        max: usize,
    },
    /// A required cleanup worker could not start during construction.
    ThreadStartFailed {
        /// Stable build component name suitable for diagnostics.
        component: &'static str,
        /// Zero-based position in the worker startup batch.
        worker: usize,
        /// Portable I/O error category.
        kind: std::io::ErrorKind,
        /// Platform-specific OS error code, when one was available.
        raw_os_error: Option<i32>,
    },
}

impl BuildError {
    /// Stable category label.
    pub open spec fn label(self) -> Seq<char> {
        match self {
            BuildError::ResourceLimitReached { .. } => "build_resource_limit_reached"@,
            BuildError::CapacityTooLarge { .. } => "build_capacity_too_large"@,
            BuildError::ThreadStartFailed { .. } => "build_thread_start_failed"@,
        }
    }

    /// Readable message.
    pub open spec fn message(self) -> Seq<char> {
        match self {
            BuildError::ResourceLimitReached { resource, limit } => "resource limit reached for "@
                + resource@ + ": "@ + decimal(limit as nat),
            BuildError::CapacityTooLarge { field, value, max } => field@ + " must not exceed "@
                + decimal(max as nat) + "; got "@ + decimal(value as nat),
            BuildError::ThreadStartFailed { component, worker, kind, raw_os_error } =>
                "failed to start "@ + component@ + " worker "@ + decimal(worker as nat) + ": "@
                + io_kind_debug(kind) + " (raw OS error: "@ + optional_signed(raw_os_error) + ")"@,
        }
    }

    /// Stable category label for logs and metrics.
    #[must_use]
    pub fn as_label(&self) -> (label: &'static str)
        ensures
            label@ == self.label(),
    {
        match self {
            BuildError::ResourceLimitReached { .. } => "build_resource_limit_reached",
            BuildError::CapacityTooLarge { .. } => "build_capacity_too_large",
            BuildError::ThreadStartFailed { .. } => "build_thread_start_failed",
        }
    }

    /// Readable message.
    pub fn to_string(&self) -> (text: String)
        ensures
            text@ == self.message(),
    {
        let mut text = String::new();
        match self {
            BuildError::ResourceLimitReached { resource, limit } => {
                text.append("resource limit reached for ");
                text.append(resource);
                text.append(": ");
                append_size(&mut text, *limit);
            },
            BuildError::CapacityTooLarge { field, value, max } => {
                text.append(field);
                text.append(" must not exceed ");
                append_size(&mut text, *max);
                text.append("; got ");
                append_size(&mut text, *value);
            },
            BuildError::ThreadStartFailed { component, worker, kind, raw_os_error } => {
                text.append("failed to start ");
                text.append(component);
                text.append(" worker ");
                append_size(&mut text, *worker);
                text.append(": ");
                let kind_text = render_io_kind(*kind);
                text.append(kind_text.as_str());
                text.append(" (raw OS error: ");
                append_optional_signed(&mut text, *raw_os_error);
                text.append(")");
            },
        }
        proof {
            assert(text@ =~= self.message());
        }
        text
    }
}

/// Failure of a supervisor lifecycle or management operation.
#[non_exhaustive]
#[derive(Debug)]
pub enum RuntimeError {
    /// Runtime startup was requested without an active Tokio runtime.
    ///
    /// The supervisor remains stopped and startup may be retried from inside a Tokio runtime.
    TokioRuntimeUnavailable,
    /// A required worker thread could not start.
    ///
    /// The operation that needed the worker remains uncommitted.
    ThreadStartFailed {
        /// Stable runtime component name suitable for diagnostics.
        component: &'static str,
        /// I/O error from thread creation or the transactional startup handshake.
        source: std::io::Error,
    },
    /// Task cleanup did not finish within the shared shutdown grace period.
    ///
    /// A listed name belongs to a force-aborted actor or to a removal owner still unfinished at
    /// the deadline.
    GraceExceeded {
        /// Configured shutdown grace duration.
        grace: Duration,
        /// Task names whose removal did not finish within the grace period.
        stuck: Vec<String>,
    },
    /// A task name is already reserved or repeated in an atomic static batch.
    TaskAlreadyExists {
        /// Conflicting task name.
        name: String,
    },
    /// A configured runtime or user-lifetime budget was exhausted.
    ResourceLimitReached {
        /// Stable resource name used by diagnostics.
        resource: &'static str,
        /// Reported bound for the rejected resource.
        limit: usize,
    },
    /// A fail-fast management call found its command queue full.
    CommandQueueFull,
    /// The caller's bounded wait for cleanup ownership expired before command intake.
    OwnershipAdmissionTimeout {
        /// Maximum duration allowed for ownership admission.
        timeout: Duration,
    },
    /// The caller's bounded wait for terminal registry cleanup expired.
    ///
    /// The stop request remains active.
    TaskTerminationTimeout {
        /// Task whose terminal cleanup remained pending.
        id: TaskId,
        /// Wait duration before timing out.
        timeout: Duration,
    },
    /// A watched task's direct outcome channel closed without a result.
    OutcomeUnavailable {
        /// Task identity whose outcome could not be delivered.
        id: TaskId,
    },
    /// Explicit operating-system signal setup failed.
    SignalSetupFailed {
        /// I/O error returned by signal registration.
        source: std::io::Error,
    },
    /// The runtime is shutting down and no longer accepts commands.
    ShuttingDown,
    /// A static run tried to acquire an already owned or committed lifecycle.
    AlreadyRunning,
}

/// Contents of a [`RuntimeError`], with its texts as character sequences.
pub enum RuntimeErrorView {
    TokioRuntimeUnavailable,
    ThreadStartFailed { component: Seq<char>, source: std::io::Error },
    GraceExceeded { grace: Duration, stuck: Seq<Seq<char>> },
    TaskAlreadyExists { name: Seq<char> },
    ResourceLimitReached { resource: Seq<char>, limit: usize },
    CommandQueueFull,
    OwnershipAdmissionTimeout { timeout: Duration },
    TaskTerminationTimeout { id: TaskId, timeout: Duration },
    OutcomeUnavailable { id: TaskId },
    SignalSetupFailed { source: std::io::Error },
    ShuttingDown,
    AlreadyRunning,
}

impl View for RuntimeError {
    type V = RuntimeErrorView;

    open spec fn view(&self) -> RuntimeErrorView {
        match *self {
            RuntimeError::TokioRuntimeUnavailable => RuntimeErrorView::TokioRuntimeUnavailable,
            RuntimeError::ThreadStartFailed { component, source } =>
                RuntimeErrorView::ThreadStartFailed { component: component@, source },
            RuntimeError::GraceExceeded { grace, stuck } => RuntimeErrorView::GraceExceeded {
                grace,
                stuck: name_views(stuck@),
            },
            RuntimeError::TaskAlreadyExists { name } => RuntimeErrorView::TaskAlreadyExists {
                name: name@,
            },
            RuntimeError::ResourceLimitReached { resource, limit } =>
                RuntimeErrorView::ResourceLimitReached { resource: resource@, limit },
            RuntimeError::CommandQueueFull => RuntimeErrorView::CommandQueueFull,
            RuntimeError::OwnershipAdmissionTimeout { timeout } =>
                RuntimeErrorView::OwnershipAdmissionTimeout { timeout },
            RuntimeError::TaskTerminationTimeout { id, timeout } =>
                RuntimeErrorView::TaskTerminationTimeout { id, timeout },
            RuntimeError::OutcomeUnavailable { id } => RuntimeErrorView::OutcomeUnavailable { id },
            RuntimeError::SignalSetupFailed { source } => RuntimeErrorView::SignalSetupFailed {
                source,
            },
            RuntimeError::ShuttingDown => RuntimeErrorView::ShuttingDown,
            RuntimeError::AlreadyRunning => RuntimeErrorView::AlreadyRunning,
        }
    }
}

impl RuntimeErrorView {
    /// Number of the category.
    pub open spec fn category(self) -> nat {
        match self {
            RuntimeErrorView::TokioRuntimeUnavailable => 0,
            RuntimeErrorView::ThreadStartFailed { .. } => 1,
            RuntimeErrorView::GraceExceeded { .. } => 2,
            RuntimeErrorView::TaskAlreadyExists { .. } => 3,
            RuntimeErrorView::ResourceLimitReached { .. } => 4,
            RuntimeErrorView::CommandQueueFull => 5,
            RuntimeErrorView::OwnershipAdmissionTimeout { .. } => 6,
            RuntimeErrorView::TaskTerminationTimeout { .. } => 7,
            RuntimeErrorView::OutcomeUnavailable { .. } => 8,
            RuntimeErrorView::SignalSetupFailed { .. } => 9,
            RuntimeErrorView::ShuttingDown => 10,
            RuntimeErrorView::AlreadyRunning => 11,
        }
    }

    /// Stable category label.
    pub open spec fn label(self) -> Seq<char> {
        match self {
            RuntimeErrorView::TokioRuntimeUnavailable => "runtime_tokio_runtime_unavailable"@,
            RuntimeErrorView::ThreadStartFailed { .. } => "runtime_thread_start_failed"@,
            RuntimeErrorView::GraceExceeded { .. } => "runtime_grace_exceeded"@,
            RuntimeErrorView::TaskAlreadyExists { .. } => "runtime_task_already_exists"@,
            RuntimeErrorView::ResourceLimitReached { .. } => "runtime_resource_limit_reached"@,
            RuntimeErrorView::CommandQueueFull => "runtime_command_queue_full"@,
            RuntimeErrorView::OwnershipAdmissionTimeout { .. } =>
                "runtime_ownership_admission_timeout"@,
            RuntimeErrorView::TaskTerminationTimeout { .. } => "runtime_task_termination_timeout"@,
            RuntimeErrorView::OutcomeUnavailable { .. } => "runtime_outcome_unavailable"@,
            RuntimeErrorView::SignalSetupFailed { .. } => "runtime_signal_setup_failed"@,
            RuntimeErrorView::ShuttingDown => "runtime_shutting_down"@,
            RuntimeErrorView::AlreadyRunning => "runtime_already_running"@,
        }
    }

    /// Whether `text` is the readable message of this error.
    ///
    /// The text of an I/O source is whatever its own `to_string` gives.
    pub open spec fn reads_as(self, text: Seq<char>) -> bool {
        match self {
            RuntimeErrorView::TokioRuntimeUnavailable => text
                == "runtime startup requires an active Tokio runtime"@,
            RuntimeErrorView::ThreadStartFailed { component, source } => reads_with_source(
                text,
                "failed to start "@ + component + " thread: "@,
                source,
            ),
            RuntimeErrorView::GraceExceeded { grace, stuck } => text == "shutdown timeout "@
                + duration_debug(grace) + " exceeded; logically force-aborted: "@ + names_debug(
                stuck,
            ),
            RuntimeErrorView::TaskAlreadyExists { name } => text == "task name '"@ + name
                + "' already exists"@,
            RuntimeErrorView::ResourceLimitReached { resource, limit } => text
                == "resource limit reached for "@ + resource + ": "@ + decimal(limit as nat),
            RuntimeErrorView::CommandQueueFull => text == "management command queue is full"@,
            RuntimeErrorView::OwnershipAdmissionTimeout { timeout } => text
                == "timeout waiting for ownership admission after "@ + duration_debug(timeout),
            RuntimeErrorView::TaskTerminationTimeout { id, timeout } => text
                == "timeout waiting for task "@ + decimal(id.raw as nat) + " termination after "@
                + duration_debug(timeout),
            RuntimeErrorView::OutcomeUnavailable { id } => text == "final outcome for task "@
                + decimal(id.raw as nat) + " is unavailable"@,
            RuntimeErrorView::SignalSetupFailed { source } => reads_with_source(
                text,
                "failed to install shutdown signal handlers: "@,
                source,
            ),
            RuntimeErrorView::ShuttingDown => text == "supervisor is shutting down"@,
            RuntimeErrorView::AlreadyRunning => text == "supervisor run() was already started"@,
        }
    }
}

impl RuntimeError {
    /// Stable category label for logs and metrics.
    ///
    /// This label is not the same as the readable message.
    #[must_use]
    pub fn as_label(&self) -> (label: &'static str)
        ensures
            label@ == self@.label(),
    {
        match self {
            RuntimeError::TokioRuntimeUnavailable => "runtime_tokio_runtime_unavailable",
            RuntimeError::ThreadStartFailed { .. } => "runtime_thread_start_failed",
            RuntimeError::GraceExceeded { .. } => "runtime_grace_exceeded",
            RuntimeError::TaskAlreadyExists { .. } => "runtime_task_already_exists",
            RuntimeError::ResourceLimitReached { .. } => "runtime_resource_limit_reached",
            RuntimeError::CommandQueueFull => "runtime_command_queue_full",
            RuntimeError::OwnershipAdmissionTimeout { .. } => "runtime_ownership_admission_timeout",
            RuntimeError::TaskTerminationTimeout { .. } => "runtime_task_termination_timeout",
            RuntimeError::OutcomeUnavailable { .. } => "runtime_outcome_unavailable",
            RuntimeError::SignalSetupFailed { .. } => "runtime_signal_setup_failed",
            RuntimeError::ShuttingDown => "runtime_shutting_down",
            RuntimeError::AlreadyRunning => "runtime_already_running",
        }
    }

    /// Readable message.
    pub fn to_string(&self) -> (text: String)
        ensures
            self@.reads_as(text@),
    {
        let mut text = String::new();
        match self {
            RuntimeError::TokioRuntimeUnavailable => {
                text.append("runtime startup requires an active Tokio runtime");
                proof {
                    assert(text@ =~= "runtime startup requires an active Tokio runtime"@);
                }
            },
            RuntimeError::ThreadStartFailed { component, source } => {
                let shown = source.to_string();
                text.append("failed to start ");
                text.append(component);
                text.append(" thread: ");
                text.append(shown.as_str());
                proof {
                    assert(to_string_from_display_ensures::<std::io::Error>(source, shown));
                    assert(text@ =~= "failed to start "@ + component@ + " thread: "@ + shown@);
                }
            },
            RuntimeError::GraceExceeded { grace, stuck } => {
                text.append("shutdown timeout ");
                let grace_text = render_duration(*grace);
                text.append(grace_text.as_str());
                text.append(" exceeded; logically force-aborted: ");
                let stuck_text = render_names(stuck);
                text.append(stuck_text.as_str());
                proof {
                    assert(text@ =~= "shutdown timeout "@ + duration_debug(*grace)
                        + " exceeded; logically force-aborted: "@ + names_debug(
                        name_views(stuck@),
                    ));
                }
            },
            RuntimeError::TaskAlreadyExists { name } => {
                text.append("task name '");
                text.append(name.as_str());
                text.append("' already exists");
                proof {
                    assert(text@ =~= "task name '"@ + name@ + "' already exists"@);
                }
            },
            RuntimeError::ResourceLimitReached { resource, limit } => {
                text.append("resource limit reached for ");
                text.append(resource);
                text.append(": ");
                append_size(&mut text, *limit);
                proof {
                    assert(text@ =~= "resource limit reached for "@ + resource@ + ": "@ + decimal(
                        *limit as nat,
                    ));
                }
            },
            RuntimeError::CommandQueueFull => {
                text.append("management command queue is full");
                proof {
                    assert(text@ =~= "management command queue is full"@);
                }
            },
            RuntimeError::OwnershipAdmissionTimeout { timeout } => {
                text.append("timeout waiting for ownership admission after ");
                let timeout_text = render_duration(*timeout);
                text.append(timeout_text.as_str());
                proof {
                    assert(text@ =~= "timeout waiting for ownership admission after "@
                        + duration_debug(*timeout));
                }
            },
            RuntimeError::TaskTerminationTimeout { id, timeout } => {
                text.append("timeout waiting for task ");
                let id_text = id.to_string();
                text.append(id_text.as_str());
                text.append(" termination after ");
                let timeout_text = render_duration(*timeout);
                text.append(timeout_text.as_str());
                proof {
                    assert(text@ =~= "timeout waiting for task "@ + decimal(id.raw as nat)
                        + " termination after "@ + duration_debug(*timeout));
                }
            },
            RuntimeError::OutcomeUnavailable { id } => {
                text.append("final outcome for task ");
                let id_text = id.to_string();
                text.append(id_text.as_str());
                text.append(" is unavailable");
                proof {
                    assert(text@ =~= "final outcome for task "@ + decimal(id.raw as nat)
                        + " is unavailable"@);
                }
            },
            RuntimeError::SignalSetupFailed { source } => {
                let shown = source.to_string();
                text.append("failed to install shutdown signal handlers: ");
                text.append(shown.as_str());
                proof {
                    assert(to_string_from_display_ensures::<std::io::Error>(source, shown));
                    assert(text@ =~= "failed to install shutdown signal handlers: "@ + shown@);
                }
            },
            RuntimeError::ShuttingDown => {
                text.append("supervisor is shutting down");
                proof {
                    assert(text@ =~= "supervisor is shutting down"@);
                }
            },
            RuntimeError::AlreadyRunning => {
                text.append("supervisor run() was already started");
                proof {
                    assert(text@ =~= "supervisor run() was already started"@);
                }
            },
        }
        text
    }

    /// I/O error behind this failure, if there is one.
    pub fn source(&self) -> (source: Option<&std::io::Error>)
        ensures
            match self@ {
                RuntimeErrorView::ThreadStartFailed { source: inner, .. } => source == Some(&inner),
                RuntimeErrorView::SignalSetupFailed { source: inner } => source == Some(&inner),
                _ => source is None,
            },
    {
        match self {
            RuntimeError::ThreadStartFailed { source, .. } => Some(source),
            RuntimeError::SignalSetupFailed { source } => Some(source),
            _ => None,
        }
    }
}

/// Error returned by one task attempt.
///
/// [`Fail`](Self::Fail) and [`Timeout`](Self::Timeout) are retry-eligible.
/// [`Fatal`](Self::Fatal) and [`Canceled`](Self::Canceled) stop the actor.
/// Restart policy and the retry limit still decide whether a retry-eligible error runs again.
/// `S` is the type of the source error.
#[non_exhaustive]
#[derive(Debug)]
pub enum TaskError<S> {
    /// A timeout was reported for this attempt. It is retry-eligible.
    Timeout {
        /// Duration reported for the timeout.
        timeout: Duration,
    },
    /// Permanent task failure that stops the actor. This category is never retried.
    Fatal {
        /// Human-readable diagnostic reason.
        reason: String,
        /// Process-style exit code, when available.
        exit_code: Option<i32>,
        /// Optional source preserved for inspection.
        source: Option<S>,
    },
    /// Retry-eligible task failure.
    Fail {
        /// Human-readable diagnostic reason.
        reason: String,
        /// Process-style exit code, when available.
        exit_code: Option<i32>,
        /// Optional source preserved for inspection.
        source: Option<S>,
    },
    /// Cooperative cancellation.
    Canceled,
}

/// Contents of a [`TaskError`], with its texts as character sequences.
pub enum TaskErrorView<S> {
    Timeout { timeout: Duration },
    Fatal { reason: Seq<char>, exit_code: Option<i32>, source: Option<S> },
    Fail { reason: Seq<char>, exit_code: Option<i32>, source: Option<S> },
    Canceled,
}

impl<S> View for TaskError<S> {
    type V = TaskErrorView<S>;

    open spec fn view(&self) -> TaskErrorView<S> {
        match *self {
            TaskError::Timeout { timeout } => TaskErrorView::Timeout { timeout },
            TaskError::Fatal { reason, exit_code, source } => TaskErrorView::Fatal {
                reason: reason@,
                exit_code,
                source,
            },
            TaskError::Fail { reason, exit_code, source } => TaskErrorView::Fail {
                reason: reason@,
                exit_code,
                source,
            },
            TaskError::Canceled => TaskErrorView::Canceled,
        }
    }
}

impl<S> TaskErrorView<S> {
    /// Stable category label.
    pub open spec fn label(self) -> Seq<char> {
        match self {
            TaskErrorView::Timeout { .. } => "task_timeout"@,
            TaskErrorView::Fatal { .. } => "task_fatal"@,
            TaskErrorView::Fail { .. } => "task_failed"@,
            TaskErrorView::Canceled => "task_canceled"@,
        }
    }

    /// Readable message.
    pub open spec fn message(self) -> Seq<char> {
        match self {
            TaskErrorView::Timeout { timeout } => "timed out after "@ + duration_debug(timeout),
            TaskErrorView::Fatal { reason, .. } => "fatal error (no retry): "@ + reason,
            TaskErrorView::Fail { reason, .. } => "execution failed: "@ + reason,
            TaskErrorView::Canceled => "context canceled"@,
        }
    }

    /// Whether the category is retry-eligible.
    pub open spec fn retryable(self) -> bool {
        self is Timeout || self is Fail
    }

    /// Attached exit code.
    pub open spec fn exit_code(self) -> Option<i32> {
        match self {
            TaskErrorView::Fatal { exit_code, .. } => exit_code,
            TaskErrorView::Fail { exit_code, .. } => exit_code,
            _ => None,
        }
    }

    /// Attached source.
    pub open spec fn source(self) -> Option<S> {
        match self {
            TaskErrorView::Fatal { source, .. } => source,
            TaskErrorView::Fail { source, .. } => source,
            _ => None,
        }
    }

    /// The same error with another exit code, where the variant has one.
    pub open spec fn with_exit_code(self, code: Option<i32>) -> TaskErrorView<S> {
        match self {
            TaskErrorView::Fatal { reason, source, .. } => TaskErrorView::Fatal {
                reason,
                exit_code: code,
                source,
            },
            TaskErrorView::Fail { reason, source, .. } => TaskErrorView::Fail {
                reason,
                exit_code: code,
                source,
            },
            other => other,
        }
    }

    /// The same error with another source, where the variant has one.
    pub open spec fn with_source(self, new_source: S) -> TaskErrorView<S> {
        match self {
            TaskErrorView::Fatal { reason, exit_code, .. } => TaskErrorView::Fatal {
                reason,
                exit_code,
                source: Some(new_source),
            },
            TaskErrorView::Fail { reason, exit_code, .. } => TaskErrorView::Fail {
                reason,
                exit_code,
                source: Some(new_source),
            },
            other => other,
        }
    }
}

impl<S> TaskError<S> {
    /// Retry-eligible failure without a source error.
    pub fn fail<R: Into<String>>(reason: R) -> (error: TaskError<S>)
        ensures
            exists|text: String| #[trigger]
                call_ensures(<R as Into<String>>::into, (reason,), text) && error@
                    == (TaskErrorView::Fail { reason: text@, exit_code: None, source: None::<S> }),
    {
        TaskError::Fail { reason: reason.into(), exit_code: None, source: None }
    }

    /// Permanent failure without a source error.
    pub fn fatal<R: Into<String>>(reason: R) -> (error: TaskError<S>)
        ensures
            exists|text: String| #[trigger]
                call_ensures(<R as Into<String>>::into, (reason,), text) && error@
                    == (TaskErrorView::Fatal { reason: text@, exit_code: None, source: None::<S> }),
    {
        TaskError::Fatal { reason: reason.into(), exit_code: None, source: None }
    }

    /// Retry-eligible failure that preserves its source error.
    ///
    /// The reason comes from `source.to_string()`.
    pub fn fail_from(source: S) -> (error: TaskError<S>) where S: std::fmt::Display
        ensures
            exists|text: String| #[trigger]
                to_string_from_display_ensures::<S>(&source, text) && error@ == (
                TaskErrorView::Fail { reason: text@, exit_code: None, source: Some(source) }),
    {
        TaskError::Fail { reason: source.to_string(), exit_code: None, source: Some(source) }
    }

    /// Permanent failure that preserves its source error.
    ///
    /// The reason comes from `source.to_string()`.
    pub fn fatal_from(source: S) -> (error: TaskError<S>) where S: std::fmt::Display
        ensures
            exists|text: String| #[trigger]
                to_string_from_display_ensures::<S>(&source, text) && error@ == (
                TaskErrorView::Fatal { reason: text@, exit_code: None, source: Some(source) }),
    {
        TaskError::Fatal { reason: source.to_string(), exit_code: None, source: Some(source) }
    }

    /// Retry-eligible timeout with the reported duration.
    #[must_use]
    pub fn timeout(timeout: Duration) -> (error: TaskError<S>)
        ensures
            error@ == (TaskErrorView::<S>::Timeout { timeout }),
    {
        TaskError::Timeout { timeout }
    }

    /// Process-style exit code for `Fail` or `Fatal`.
    ///
    /// Pass an integer to set it or `None` to clear it.
    /// Other variants are returned unchanged.
    #[must_use]
    pub fn with_exit_code<C: Into<Option<i32>>>(self, code: C) -> (error: TaskError<S>)
        ensures
            exists|value: Option<i32>| #[trigger]
                call_ensures(<C as Into<Option<i32>>>::into, (code,), value) && error@
                    == self@.with_exit_code(value),
    {
        let code: Option<i32> = code.into();
        match self {
            TaskError::Fail { reason, source, .. } => TaskError::Fail {
                reason,
                exit_code: code,
                source,
            },
            TaskError::Fatal { reason, source, .. } => TaskError::Fatal {
                reason,
                exit_code: code,
                source,
            },
            other => other,
        }
    }

    /// Source error for `Fail` or `Fatal`.
    ///
    /// Other variants are returned unchanged.
    #[must_use]
    pub fn with_source<E: Into<S>>(self, source: E) -> (error: TaskError<S>)
        ensures
            (self@ is Fail || self@ is Fatal) ==> exists|value: S| #[trigger]
                call_ensures(<E as Into<S>>::into, (source,), value) && error@ == self@.with_source(
                    value,
                ),
            !(self@ is Fail || self@ is Fatal) ==> error@ == self@,
    {
        match self {
            TaskError::Fail { reason, exit_code, .. } => TaskError::Fail {
                reason,
                exit_code,
                source: Some(source.into()),
            },
            TaskError::Fatal { reason, exit_code, .. } => TaskError::Fatal {
                reason,
                exit_code,
                source: Some(source.into()),
            },
            other => other,
        }
    }

    /// Owned source error, if one is present.
    #[must_use]
    pub fn into_source(self) -> (source: Option<S>)
        ensures
            source == self@.source(),
    {
        match self {
            TaskError::Fail { source, .. } => source,
            TaskError::Fatal { source, .. } => source,
            _ => None,
        }
    }

    /// Borrowed source error, if one is present.
    #[must_use]
    pub fn source(&self) -> (source: Option<&S>)
        ensures
            match self@.source() {
                Some(inner) => source == Some(&inner),
                None => source is None,
            },
    {
        match self {
            TaskError::Fail { source: Some(source), .. } => Some(source),
            TaskError::Fatal { source: Some(source), .. } => Some(source),
            _ => None,
        }
    }

    /// Stable category label for logs and metrics.
    ///
    /// This label is not the same as the readable message.
    #[must_use]
    pub fn as_label(&self) -> (label: &'static str)
        ensures
            label@ == self@.label(),
    {
        match self {
            TaskError::Timeout { .. } => "task_timeout",
            TaskError::Fatal { .. } => "task_fatal",
            TaskError::Fail { .. } => "task_failed",
            TaskError::Canceled => "task_canceled",
        }
    }

    /// Whether the error category is retry-eligible.
    ///
    /// The active restart policy and retry limit can still stop the task.
    #[must_use]
    pub fn is_retryable(&self) -> (retryable: bool)
        ensures
            retryable == self@.retryable(),
    {
        matches!(self, TaskError::Timeout { .. } | TaskError::Fail { .. })
    }

    /// Whether the error is [`TaskError::Fatal`].
    #[must_use]
    pub fn is_fatal(&self) -> (fatal: bool)
        ensures
            fatal == (self@ is Fatal),
    {
        matches!(self, TaskError::Fatal { .. })
    }

    /// Process-style exit code attached to `Fail` or `Fatal`.
    #[must_use]
    pub fn exit_code(&self) -> (code: Option<i32>)
        ensures
            code == self@.exit_code(),
    {
        match self {
            TaskError::Fatal { exit_code, .. } => *exit_code,
            TaskError::Fail { exit_code, .. } => *exit_code,
            TaskError::Timeout { .. } => None,
            TaskError::Canceled => None,
        }
    }

    /// Readable message.
    pub fn to_string(&self) -> (text: String)
        ensures
            text@ == self@.message(),
    {
        let mut text = String::new();
        match self {
            TaskError::Timeout { timeout } => {
                text.append("timed out after ");
                let timeout_text = render_duration(*timeout);
                text.append(timeout_text.as_str());
            },
            TaskError::Fatal { reason, .. } => {
                text.append("fatal error (no retry): ");
                text.append(reason.as_str());
            },
            TaskError::Fail { reason, .. } => {
                text.append("execution failed: ");
                text.append(reason.as_str());
            },
            TaskError::Canceled => {
                text.append("context canceled");
            },
        }
        proof {
            assert(text@ =~= self@.message());
        }
        text
    }
}

/// Error wrapper for code that combines runtime operations.
///
/// Match the variant to recover the wrapped error.
#[non_exhaustive]
#[derive(Debug)]
pub enum Error {
    /// Error from runtime lifecycle, management, or outcome waiting.
    Runtime(RuntimeError),
}

impl From<RuntimeError> for Error {
    fn from(error: RuntimeError) -> (wrapped: Error) {
        Error::Runtime(error)
    }
}

impl vstd::std_specs::convert::FromSpecImpl<RuntimeError> for Error {
    open spec fn obeys_from_spec() -> bool {
        true
    }

    open spec fn from_spec(error: RuntimeError) -> Error {
        Error::Runtime(error)
    }
}

impl Error {
    /// Stable category label of the wrapped error.
    pub open spec fn label(self) -> Seq<char> {
        match self {
            Error::Runtime(error) => error@.label(),
        }
    }

    /// Stable category label from the wrapped error.
    ///
    /// The wrapper does not introduce a second category.
    #[must_use]
    pub fn as_label(&self) -> (label: &'static str)
        ensures
            label@ == self.label(),
    {
        match self {
            Error::Runtime(error) => error.as_label(),
        }
    }

    /// Readable message of the wrapped error.
    pub fn to_string(&self) -> (text: String)
        ensures
            match *self {
                Error::Runtime(error) => error@.reads_as(text@),
            },
    {
        match self {
            Error::Runtime(error) => error.to_string(),
        }
    }
}

/// Length of a runtime label and the two characters after its common prefix.
spec fn label_key(error: RuntimeErrorView) -> (nat, char, char) {
    match error {
        RuntimeErrorView::TokioRuntimeUnavailable => (33, 't', 'o'),
        RuntimeErrorView::ThreadStartFailed { .. } => (27, 't', 'h'),
        RuntimeErrorView::GraceExceeded { .. } => (22, 'g', 'r'),
        RuntimeErrorView::TaskAlreadyExists { .. } => (27, 't', 'a'),
        RuntimeErrorView::ResourceLimitReached { .. } => (30, 'r', 'e'),
        RuntimeErrorView::CommandQueueFull => (26, 'c', 'o'),
        RuntimeErrorView::OwnershipAdmissionTimeout { .. } => (35, 'o', 'w'),
        RuntimeErrorView::TaskTerminationTimeout { .. } => (32, 't', 'a'),
        RuntimeErrorView::OutcomeUnavailable { .. } => (27, 'o', 'u'),
        RuntimeErrorView::SignalSetupFailed { .. } => (27, 's', 'i'),
        RuntimeErrorView::ShuttingDown => (21, 's', 'h'),
        RuntimeErrorView::AlreadyRunning => (23, 'a', 'l'),
    }
}

/// The key is that of the label.
proof fn lemma_label_key(error: RuntimeErrorView)
    ensures
        label_key(error) == (error.label().len(), error.label()[8], error.label()[9]),
{
    match error {
        RuntimeErrorView::TokioRuntimeUnavailable => {
            reveal_strlit("runtime_tokio_runtime_unavailable");
            assert("runtime_tokio_runtime_unavailable"@.len() == 33);
            assert("runtime_tokio_runtime_unavailable"@[8] == 't');
            assert("runtime_tokio_runtime_unavailable"@[9] == 'o');
        },
        RuntimeErrorView::ThreadStartFailed { .. } => {
            reveal_strlit("runtime_thread_start_failed");
            assert("runtime_thread_start_failed"@.len() == 27);
            assert("runtime_thread_start_failed"@[8] == 't');
            assert("runtime_thread_start_failed"@[9] == 'h');
        },
        RuntimeErrorView::GraceExceeded { .. } => {
            reveal_strlit("runtime_grace_exceeded");
            assert("runtime_grace_exceeded"@.len() == 22);
            assert("runtime_grace_exceeded"@[8] == 'g');
            assert("runtime_grace_exceeded"@[9] == 'r');
        },
        RuntimeErrorView::TaskAlreadyExists { .. } => {
            reveal_strlit("runtime_task_already_exists");
            assert("runtime_task_already_exists"@.len() == 27);
            assert("runtime_task_already_exists"@[8] == 't');
            assert("runtime_task_already_exists"@[9] == 'a');
        },
        RuntimeErrorView::ResourceLimitReached { .. } => {
            reveal_strlit("runtime_resource_limit_reached");
            assert("runtime_resource_limit_reached"@.len() == 30);
            assert("runtime_resource_limit_reached"@[8] == 'r');
            assert("runtime_resource_limit_reached"@[9] == 'e');
        },
        RuntimeErrorView::CommandQueueFull => {
            reveal_strlit("runtime_command_queue_full");
            assert("runtime_command_queue_full"@.len() == 26);
            assert("runtime_command_queue_full"@[8] == 'c');
            assert("runtime_command_queue_full"@[9] == 'o');
        },
        RuntimeErrorView::OwnershipAdmissionTimeout { .. } => {
            reveal_strlit("runtime_ownership_admission_timeout");
            assert("runtime_ownership_admission_timeout"@.len() == 35);
            assert("runtime_ownership_admission_timeout"@[8] == 'o');
            assert("runtime_ownership_admission_timeout"@[9] == 'w');
        },
        RuntimeErrorView::TaskTerminationTimeout { .. } => {
            reveal_strlit("runtime_task_termination_timeout");
            assert("runtime_task_termination_timeout"@.len() == 32);
            assert("runtime_task_termination_timeout"@[8] == 't');
            assert("runtime_task_termination_timeout"@[9] == 'a');
        },
        RuntimeErrorView::OutcomeUnavailable { .. } => {
            reveal_strlit("runtime_outcome_unavailable");
            assert("runtime_outcome_unavailable"@.len() == 27);
            assert("runtime_outcome_unavailable"@[8] == 'o');
            assert("runtime_outcome_unavailable"@[9] == 'u');
        },
        RuntimeErrorView::SignalSetupFailed { .. } => {
            reveal_strlit("runtime_signal_setup_failed");
            assert("runtime_signal_setup_failed"@.len() == 27);
            assert("runtime_signal_setup_failed"@[8] == 's');
            assert("runtime_signal_setup_failed"@[9] == 'i');
        },
        RuntimeErrorView::ShuttingDown => {
            reveal_strlit("runtime_shutting_down");
            assert("runtime_shutting_down"@.len() == 21);
            assert("runtime_shutting_down"@[8] == 's');
            assert("runtime_shutting_down"@[9] == 'h');
        },
        RuntimeErrorView::AlreadyRunning => {
            reveal_strlit("runtime_already_running");
            assert("runtime_already_running"@.len() == 23);
            assert("runtime_already_running"@[8] == 'a');
            assert("runtime_already_running"@[9] == 'l');
        },
    }
}

/// The label of a runtime error identifies its category: no two categories share one.
pub proof fn law_runtime_labels_identify_the_category(a: RuntimeErrorView, b: RuntimeErrorView)
    requires
        a.label() == b.label(),
    ensures
        a.category() == b.category(),
{
    lemma_label_key(a);
    lemma_label_key(b);
}

/// The label of a task error identifies its category: no two categories share one.
pub proof fn law_task_labels_identify_the_category<S>(a: TaskErrorView<S>, b: TaskErrorView<S>)
    requires
        a.label() == b.label(),
    ensures
        a is Timeout <==> b is Timeout,
        a is Fatal <==> b is Fatal,
        a is Fail <==> b is Fail,
        a is Canceled <==> b is Canceled,
{
    reveal_strlit("task_timeout");
    reveal_strlit("task_fatal");
    reveal_strlit("task_failed");
    reveal_strlit("task_canceled");
    assert("task_timeout"@.len() == 12);
    assert("task_fatal"@.len() == 10);
    assert("task_failed"@.len() == 11);
    assert("task_canceled"@.len() == 13);
}

/// A runtime error is read as it is: what it carries is what its contents carry.
pub proof fn law_a_runtime_error_is_read_as_it_is(error: RuntimeError)
    ensures
        match error {
            RuntimeError::TokioRuntimeUnavailable => error@ is TokioRuntimeUnavailable,
            RuntimeError::ThreadStartFailed { component, source } => error@ == (
            RuntimeErrorView::ThreadStartFailed { component: component@, source }),
            RuntimeError::GraceExceeded { grace, stuck } => error@ matches
                RuntimeErrorView::GraceExceeded { grace: told, stuck: names } && told == grace
                && names.len() == stuck@.len() && forall|i: int|
                0 <= i < names.len() ==> #[trigger] names[i] == stuck@[i]@,
            RuntimeError::TaskAlreadyExists { name } => error@ == (
            RuntimeErrorView::TaskAlreadyExists { name: name@ }),
            RuntimeError::ResourceLimitReached { resource, limit } => error@ == (
            RuntimeErrorView::ResourceLimitReached { resource: resource@, limit }),
            RuntimeError::CommandQueueFull => error@ is CommandQueueFull,
            RuntimeError::OwnershipAdmissionTimeout { timeout } => error@ == (
            RuntimeErrorView::OwnershipAdmissionTimeout { timeout }),
            RuntimeError::TaskTerminationTimeout { id, timeout } => error@ == (
            RuntimeErrorView::TaskTerminationTimeout { id, timeout }),
            RuntimeError::OutcomeUnavailable { id } => error@ == (
            RuntimeErrorView::OutcomeUnavailable { id }),
            RuntimeError::SignalSetupFailed { source } => error@ == (
            RuntimeErrorView::SignalSetupFailed { source }),
            RuntimeError::ShuttingDown => error@ is ShuttingDown,
            RuntimeError::AlreadyRunning => error@ is AlreadyRunning,
        },
{
}

/// A message tells what the error carries: two errors of a category read the same only where the
/// task, the limit, or the duration they tell reads the same.
pub proof fn law_a_runtime_message_tells_its_contents(
    error: RuntimeErrorView,
    text: Seq<char>,
)
    requires
        error.reads_as(text),
    ensures
        match error {
            RuntimeErrorView::TaskAlreadyExists { name } => text == "task name '"@ + name
                + "' already exists"@,
            RuntimeErrorView::ResourceLimitReached { resource, limit } => text
                == "resource limit reached for "@ + resource + ": "@ + decimal(limit as nat),
            RuntimeErrorView::GraceExceeded { grace, stuck } => text == "shutdown timeout "@
                + duration_debug(grace) + " exceeded; logically force-aborted: "@ + names_debug(
                stuck,
            ),
            RuntimeErrorView::OwnershipAdmissionTimeout { timeout } => text
                == "timeout waiting for ownership admission after "@ + duration_debug(timeout),
            RuntimeErrorView::TaskTerminationTimeout { id, timeout } => text
                == "timeout waiting for task "@ + decimal(id.raw as nat) + " termination after "@
                + duration_debug(timeout),
            RuntimeErrorView::OutcomeUnavailable { id } => text == "final outcome for task "@
                + decimal(id.raw as nat) + " is unavailable"@,
            RuntimeErrorView::ThreadStartFailed { component, source } => exists|shown: String|
                #[trigger] to_string_from_display_ensures::<std::io::Error>(&source, shown) && text
                    == "failed to start "@ + component + " thread: "@ + shown@,
            RuntimeErrorView::SignalSetupFailed { source } => exists|shown: String| #[trigger]
                to_string_from_display_ensures::<std::io::Error>(&source, shown) && text
                    == "failed to install shutdown signal handlers: "@ + shown@,
            _ => true,
        },
{
}

/// A task error is read as it is, its message tells its reason, and only a failure or a timeout may
/// be tried again: never a fatal error, never a cancellation.
pub proof fn law_a_task_error_tells_its_contents<S>(error: TaskError<S>)
    ensures
        error@.retryable() <==> error is Fail || error is Timeout,
        match error {
            TaskError::Timeout { timeout } => {
                &&& error@ == (TaskErrorView::<S>::Timeout { timeout })
                &&& error@.message() == "timed out after "@ + duration_debug(timeout)
                &&& error@.exit_code() is None
                &&& error@.source() is None
            },
            TaskError::Fatal { reason, exit_code, source } => {
                &&& error@ == (TaskErrorView::Fatal { reason: reason@, exit_code, source })
                &&& error@.message() == "fatal error (no retry): "@ + reason@
                &&& error@.exit_code() == exit_code
                &&& error@.source() == source
            },
            TaskError::Fail { reason, exit_code, source } => {
                &&& error@ == (TaskErrorView::Fail { reason: reason@, exit_code, source })
                &&& error@.message() == "execution failed: "@ + reason@
                &&& error@.exit_code() == exit_code
                &&& error@.source() == source
            },
            TaskError::Canceled => {
                &&& error@ is Canceled
                &&& error@.exit_code() is None
                &&& error@.source() is None
            },
        },
{
}

/// The builders set what they name and keep the rest: the category, the reason, and the other
/// attachment stay, the last value counts, and an error without room for it is left alone.
pub proof fn law_error_builders_set_only_what_they_name<S>(
    error: TaskErrorView<S>,
    code: Option<i32>,
    other: Option<i32>,
    source: S,
)
    ensures
        error is Fail || error is Fatal ==> {
            &&& error.with_exit_code(code).exit_code() == code
            &&& error.with_source(source).source() == Some(source)
        },
        error.with_exit_code(code).source() == error.source(),
        error.with_source(source).exit_code() == error.exit_code(),
        error.with_exit_code(code).message() == error.message(),
        error.with_source(source).message() == error.message(),
        error.with_exit_code(code).retryable() == error.retryable(),
        error.with_source(source).retryable() == error.retryable(),
        error.with_exit_code(other).with_exit_code(code) == error.with_exit_code(code),
        error.with_exit_code(code).with_source(source) == error.with_source(source).with_exit_code(
            code,
        ),
        error is Timeout || error is Canceled ==> error.with_exit_code(code) == error
            && error.with_source(source) == error,
{
}

/// A build error tells what it carries.
pub proof fn law_a_build_message_tells_its_contents(error: BuildError)
    ensures
        match error {
            BuildError::ResourceLimitReached { resource, limit } => error.message()
                == "resource limit reached for "@ + resource@ + ": "@ + decimal(limit as nat),
            BuildError::CapacityTooLarge { field, value, max } => error.message() == field@
                + " must not exceed "@ + decimal(max as nat) + "; got "@ + decimal(value as nat),
            BuildError::ThreadStartFailed { component, worker, kind, raw_os_error } =>
                error.message() == "failed to start "@ + component@ + " worker "@ + decimal(
                worker as nat,
            ) + ": "@ + io_kind_debug(kind) + " (raw OS error: "@ + optional_signed(raw_os_error)
                + ")"@,
        },
        error is ResourceLimitReached <==> error.label() == "build_resource_limit_reached"@,
{
    reveal_strlit("build_resource_limit_reached");
    reveal_strlit("build_capacity_too_large");
    reveal_strlit("build_thread_start_failed");
    assert("build_resource_limit_reached"@.len() == 28);
    assert("build_capacity_too_large"@.len() == 24);
    assert("build_thread_start_failed"@.len() == 25);
}

/// A combined error has the label and the message of what it wraps.
pub proof fn law_a_combined_error_adds_nothing(error: RuntimeError)
    ensures
        Error::Runtime(error).label() == error@.label(),
{
}

} // verus!
