//! One physical task attempt.
//!
//! ```text
//! attempt ─┬─ success ──────────────► AttemptSucceeded
//!          ├─ cancellation ─────────► AttemptCanceled
//!          ├─ configured timer ─────► AttemptTimedOut
//!          └─ task error or panic ──► AttemptFailed
//! ```
//!
//! The attempt future is destroyed inside its attempt, also when the attempt times out or is
//! aborted. Exactly one terminal event belongs to each attempt.

use std::time::Duration;
use vstd::prelude::*;
use vstd::string::*;

use crate::duration::{normalize_timeout, normalized};
use crate::error::{TaskError, TaskErrorView};
use crate::events::{failure_event, task_event, Event, EventKind, EventView};
use crate::identity::TaskId;

verus! {

/// Text of a panic payload that is no string.
pub const OPAQUE_PANIC: &'static str = "non-string panic payload";

/// Error of a panic: retryable, with the text of the payload.
pub open spec fn panic_error_view<S>(message: Option<Seq<char>>) -> TaskErrorView<S> {
    TaskErrorView::Fail {
        reason: "task panicked: "@ + match message {
            Some(message) => message,
            None => OPAQUE_PANIC@,
        },
        exit_code: None,
        source: None,
    }
}

/// Characters of an optional message.
pub open spec fn message_view(message: Option<String>) -> Option<Seq<char>> {
    match message {
        Some(message) => Some(message@),
        None => None,
    }
}

/// Converts a panic into a retryable failure.
///
/// `message` is the text of the payload, if it has one.
pub fn panic_to_error<S>(message: Option<String>) -> (error: TaskError<S>)
    ensures
        error@ == panic_error_view::<S>(message_view(message)),
{
    let mut reason = "task panicked: ".to_owned();
    match message {
        Some(message) => {
            reason.append(message.as_str());
        },
        None => {
            reason.append(OPAQUE_PANIC);
        },
    }
    TaskError::Fail { reason, exit_code: None, source: None }
}

/// Failure returned by the panic boundary around a task future.
///
/// The cleanup flag records a second panic while destroying a user-owned value; that case is not
/// retried.
#[derive(Debug)]
pub struct CaughtFailure<S> {
    /// Task error produced from a returned error or panic payload.
    pub error: TaskError<S>,
    /// Whether destroying a user value also panicked.
    pub cleanup_panicked: bool,
}

/// What one poll of a task future led to, its destruction included.
#[derive(Debug)]
pub enum Polled<S> {
    /// The future is still running.
    Pending,
    /// The future returned and was destroyed.
    Ready {
        /// What the future returned.
        result: Result<(), TaskError<S>>,
        /// Panic of the future's destructor.
        drop_panic: Option<CaughtPanic>,
    },
    /// The future panicked and was destroyed.
    Panicked {
        /// Panic of the poll.
        panic: CaughtPanic,
        /// Whether destroying the panic payload panicked.
        payload_poisoned: bool,
        /// Whether the future's destructor panicked.
        drop_panicked: bool,
    },
}

/// A caught panic.
#[derive(Debug)]
pub struct CaughtPanic {
    /// Text of the payload, if it has one.
    pub message: Option<String>,
}

/// Failure of a future's destructor.
pub fn drop_failure<S>(drop_panic: Option<CaughtPanic>) -> (failure: Option<CaughtFailure<S>>)
    ensures
        match drop_panic {
            Some(panic) => failure matches Some(failure) && failure.cleanup_panicked
                && failure.error@ == panic_error_view::<S>(message_view(panic.message)),
            None => failure is None,
        },
{
    match drop_panic {
        Some(panic) => Some(
            CaughtFailure { error: panic_to_error(panic.message), cleanup_panicked: true },
        ),
        None => None,
    }
}

/// Panic boundary around one user task future.
#[derive(Debug)]
pub struct CatchPanic {
    live: bool,
}

impl CatchPanic {
    /// Whether the future is still owned by the boundary.
    pub closed spec fn is_live(self) -> bool {
        self.live
    }

    /// Boundary around a fresh future.
    pub fn new() -> (boundary: CatchPanic)
        ensures
            boundary.is_live(),
    {
        CatchPanic { live: true }
    }

    /// Whether the future is still owned by the boundary.
    pub fn live(&self) -> (live: bool)
        ensures
            live == self.is_live(),
    {
        self.live
    }

    /// Classifies one poll.
    ///
    /// A finished future is destroyed exactly once, inside the boundary. A panic of its destructor
    /// wins over what it returned. A panicked poll keeps its own message; the cleanup flag tells
    /// whether destroying the payload or the future panicked as well.
    pub fn poll<S>(&mut self, polled: Polled<S>) -> (turn: Option<Result<(), CaughtFailure<S>>>)
        requires
            old(self).is_live(),
        ensures
            final(self).is_live() == (polled is Pending),
            match polled {
                Polled::Pending => turn is None,
                Polled::Ready { result, drop_panic } => match drop_panic {
                    Some(panic) => turn matches Some(Err(failure)) && failure.cleanup_panicked
                        && failure.error@ == panic_error_view::<S>(message_view(panic.message)),
                    None => match result {
                        Ok(()) => turn == Some(Ok::<(), CaughtFailure<S>>(())),
                        Err(error) => turn == Some(
                            Err::<(), _>(CaughtFailure { error, cleanup_panicked: false }),
                        ),
                    },
                },
                Polled::Panicked { panic, payload_poisoned, drop_panicked } => {
                    &&& turn matches Some(Err(failure)) && failure.cleanup_panicked == (
                    payload_poisoned || drop_panicked) && failure.error@ == panic_error_view::<S>(
                        message_view(panic.message),
                    )
                },
            },
    {
        match polled {
            Polled::Pending => None,
            Polled::Ready { result, drop_panic } => {
                self.live = false;
                match drop_failure(drop_panic) {
                    Some(failure) => Some(Err(failure)),
                    None => match result {
                        Ok(()) => Some(Ok(())),
                        Err(error) => Some(Err(CaughtFailure { error, cleanup_panicked: false })),
                    },
                }
            },
            Polled::Panicked { panic, payload_poisoned, drop_panicked } => {
                self.live = false;
                Some(
                    Err(
                        CaughtFailure {
                            error: panic_to_error(panic.message),
                            cleanup_panicked: payload_poisoned || drop_panicked,
                        },
                    ),
                )
            },
        }
    }

    /// Destroys a future that is still running.
    ///
    /// `drop_panic` is the panic of its destructor. There is nothing to destroy a second time.
    pub fn dispose<S>(&mut self, drop_panic: Option<CaughtPanic>) -> (failure: Option<
        CaughtFailure<S>,
    >)
        ensures
            !final(self).is_live(),
            match drop_panic {
                Some(panic) if old(self).is_live() => failure matches Some(failure)
                    && failure.cleanup_panicked && failure.error@ == panic_error_view::<S>(
                    message_view(panic.message),
                ),
                _ => failure is None,
            },
    {
        if !self.live {
            return None;
        }
        self.live = false;
        drop_failure(drop_panic)
    }
}

/// Context of the diagnostic for a destructor panic at abort time.
#[derive(Debug)]
pub struct DropDiagnostic {
    /// Task name.
    pub task_name: String,
    /// Runtime task identity.
    pub id: TaskId,
    /// Attempt number.
    pub attempt: u32,
}

impl DropDiagnostic {
    /// Diagnostic for a destructor panic.
    pub fn publish<S>(&self, failure: &CaughtFailure<S>) -> (event: Event)
        ensures
            event@ == (EventView {
                id: Some(self.id),
                attempt: Some(self.attempt),
                ..failure_event(
                    "task_runner"@,
                    "future_drop_panicked task="@ + self.task_name@ + ": "@
                        + failure.error@.message(),
                )
            }),
    {
        let mut reason = "future_drop_panicked task=".to_owned();
        reason.append(self.task_name.as_str());
        reason.append(": ");
        let error = failure.error.to_string();
        reason.append(error.as_str());
        Event::runtime_failure("task_runner", reason.as_str()).with_id(self.id).with_attempt(
            self.attempt,
        )
    }
}

/// One failed attempt with diagnostics computed exactly once.
#[derive(Debug)]
pub struct AttemptFailure<S> {
    /// Classified task error.
    pub error: TaskError<S>,
    /// Diagnostic text reused by actor and events.
    pub reason: String,
    /// Process-like exit code, when present.
    pub exit_code: Option<i32>,
    /// Whether user-value cleanup also panicked.
    pub cleanup_panicked: bool,
}

impl<S> AttemptFailure<S> {
    /// Whether reason and exit code are those of the error.
    pub open spec fn describes(self, error: TaskErrorView<S>) -> bool {
        &&& self.error@ == error
        &&& self.reason@ == error.message()
        &&& self.exit_code == error.exit_code()
    }

    /// Classifies one task error for actor and event consumers.
    pub fn new(error: TaskError<S>) -> (failure: AttemptFailure<S>)
        ensures
            failure.error == error,
            failure.describes(error@),
            !failure.cleanup_panicked,
    {
        let reason = error.to_string();
        let exit_code = error.exit_code();
        AttemptFailure { error, reason, exit_code, cleanup_panicked: false }
    }

    /// Converts a panic-boundary failure into an attempt failure.
    pub fn caught(failure: CaughtFailure<S>) -> (attempt: AttemptFailure<S>)
        ensures
            attempt.error == failure.error,
            attempt.describes(failure.error@),
            attempt.cleanup_panicked == failure.cleanup_panicked,
    {
        let mut attempt = AttemptFailure::new(failure.error);
        attempt.cleanup_panicked = failure.cleanup_panicked;
        attempt
    }
}

/// Inputs of one physical attempt.
#[derive(Debug)]
pub struct AttemptRun {
    /// Task name.
    pub task_name: String,
    /// Optional attempt deadline.
    pub timeout: Option<Duration>,
    /// One-based attempt number.
    pub attempt: u32,
    /// Registered task identity.
    pub id: TaskId,
}

impl AttemptRun {
    /// Event about this attempt.
    pub open spec fn event(self, kind: EventKind, duration: Duration) -> EventView {
        EventView {
            attempt: Some(self.attempt),
            duration: Some(duration),
            ..task_event(kind, self.id, self.task_name@)
        }
    }

    /// Timer of the attempt: only a positive timeout counts.
    pub fn timer(&self) -> (timer: Option<Duration>)
        ensures
            timer == normalized(self.timeout),
    {
        normalize_timeout(self.timeout)
    }
}

/// How an attempt ended.
#[derive(Debug)]
pub enum AttemptEnd<S> {
    /// Creating the future panicked.
    SpawnPanicked {
        /// The panic.
        panic: CaughtPanic,
        /// Whether destroying the panic payload panicked.
        payload_poisoned: bool,
    },
    /// The future ended.
    Finished(Result<(), CaughtFailure<S>>),
    /// The timer fired, the attempt was cancelled, and its future destroyed.
    TimedOut {
        /// Timeout of the attempt.
        timeout: Duration,
        /// Failure of the future's destructor.
        disposal: Option<CaughtFailure<S>>,
    },
}

/// Terminal event and result of an attempt.
#[derive(Debug)]
pub struct AttemptReport<S> {
    /// The one terminal event of the attempt.
    pub event: Event,
    /// Classified result for the task actor.
    pub result: Result<(), AttemptFailure<S>>,
}

/// Event of a failed attempt.
pub open spec fn failed_event<S>(run: AttemptRun, failure: AttemptFailure<S>, duration: Duration) -> EventView {
    EventView {
        reason: Some(failure.reason@),
        exit_code: failure.exit_code,
        ..run.event(EventKind::AttemptFailed, duration)
    }
}

/// Event of a successful attempt.
pub fn publish_stopped(run: &AttemptRun, duration: Duration) -> (event: Event)
    ensures
        event@ == run.event(EventKind::AttemptSucceeded, duration),
{
    Event::new(EventKind::AttemptSucceeded).with_task(run.task_name.as_str()).with_id(
        run.id,
    ).with_attempt(run.attempt).with_duration(duration)
}

/// Event of a cooperatively cancelled attempt.
pub fn publish_canceled(run: &AttemptRun, duration: Duration) -> (event: Event)
    ensures
        event@ == run.event(EventKind::AttemptCanceled, duration),
{
    Event::new(EventKind::AttemptCanceled).with_task(run.task_name.as_str()).with_id(
        run.id,
    ).with_attempt(run.attempt).with_duration(duration)
}

/// Event of a failed attempt.
pub fn publish_failed<S>(
    run: &AttemptRun,
    failure: &AttemptFailure<S>,
    duration: Duration,
) -> (event: Event)
    ensures
        event@ == failed_event(*run, *failure, duration),
{
    let event = Event::new(EventKind::AttemptFailed).with_task(run.task_name.as_str()).with_id(
        run.id,
    ).with_attempt(run.attempt).with_duration(duration).with_reason(failure.reason.as_str());
    match failure.exit_code {
        Some(code) => event.with_exit_code(code),
        None => event,
    }
}

/// Event of an attempt that ran past its timeout.
pub fn publish_timeout(run: &AttemptRun, timeout: Duration, duration: Duration) -> (event: Event)
    ensures
        event@ == (EventView {
            timeout: Some(timeout),
            ..run.event(EventKind::AttemptTimedOut, duration)
        }),
{
    Event::new(EventKind::AttemptTimedOut).with_task(run.task_name.as_str()).with_id(
        run.id,
    ).with_timeout(timeout).with_attempt(run.attempt).with_duration(duration)
}

/// Classifies the end of one attempt for the task actor.
///
/// Panics become attempt failures. A configured timer yields a timeout, unless destroying the
/// future panicked. A timeout returned by the task follows the ordinary failure path. A panic
/// while destroying user values is kept as a flag: the actor stops instead of retrying.
pub fn run_once<S>(run: &AttemptRun, end: AttemptEnd<S>, elapsed: Duration) -> (report:
    AttemptReport<S>)
    ensures
        report.result is Ok <==> report.event@.kind == EventKind::AttemptSucceeded,
        report.event@.kind == EventKind::AttemptTimedOut <==> (end matches AttemptEnd::TimedOut {
            disposal: None,
            ..
        }),
        match end {
            AttemptEnd::SpawnPanicked { panic, payload_poisoned } => {
                &&& report.result matches Err(failure) && {
                    &&& failure.describes(panic_error_view::<S>(message_view(panic.message)))
                    &&& failure.cleanup_panicked == payload_poisoned
                    &&& report.event@ == failed_event(*run, failure, elapsed)
                }
            },
            AttemptEnd::TimedOut { timeout, disposal: Some(caught) } => {
                &&& report.result matches Err(failure) && {
                    &&& failure.error == caught.error
                    &&& failure.describes(caught.error@)
                    &&& failure.cleanup_panicked == caught.cleanup_panicked
                    &&& report.event@ == failed_event(*run, failure, elapsed)
                }
            },
            AttemptEnd::TimedOut { timeout, disposal: None } => {
                &&& report.result matches Err(failure) && {
                    &&& failure.describes(TaskErrorView::Timeout { timeout })
                    &&& !failure.cleanup_panicked
                }
                &&& report.event@ == (EventView {
                    timeout: Some(timeout),
                    ..run.event(EventKind::AttemptTimedOut, elapsed)
                })
            },
            AttemptEnd::Finished(Ok(())) => {
                &&& report.result is Ok
                &&& report.event@ == run.event(EventKind::AttemptSucceeded, elapsed)
            },
            AttemptEnd::Finished(Err(caught)) => {
                &&& report.result matches Err(failure) && {
                    &&& failure.describes(caught.error@)
                    &&& failure.cleanup_panicked == caught.cleanup_panicked
                    &&& report.event@ == (if caught.error@ is Canceled {
                        run.event(EventKind::AttemptCanceled, elapsed)
                    } else {
                        failed_event(*run, failure, elapsed)
                    })
                }
            },
        },
{
    match end {
        AttemptEnd::SpawnPanicked { panic, payload_poisoned } => {
            let mut failure = AttemptFailure::new(panic_to_error(panic.message));
            failure.cleanup_panicked = payload_poisoned;
            let event = publish_failed(run, &failure, elapsed);
            AttemptReport { event, result: Err(failure) }
        },
        AttemptEnd::TimedOut { timeout, disposal } => match disposal {
            Some(caught) => {
                let failure = AttemptFailure::caught(caught);
                let event = publish_failed(run, &failure, elapsed);
                AttemptReport { event, result: Err(failure) }
            },
            None => AttemptReport {
                event: publish_timeout(run, timeout, elapsed),
                result: Err(AttemptFailure::new(TaskError::timeout(timeout))),
            },
        },
        AttemptEnd::Finished(result) => match result {
            Ok(()) => AttemptReport { event: publish_stopped(run, elapsed), result: Ok(()) },
            Err(caught) => {
                let canceled = matches!(caught.error, TaskError::Canceled);
                let failure = AttemptFailure::caught(caught);
                let event = if canceled {
                    publish_canceled(run, elapsed)
                } else {
                    publish_failed(run, &failure, elapsed)
                };
                AttemptReport { event, result: Err(failure) }
            },
        },
    }
}

/// A panic is a failure that may be tried again, with the text of the panic, no exit code, and no
/// source.
pub proof fn law_a_panic_may_be_tried_again<S>(message: Seq<char>)
    ensures
        panic_error_view::<S>(Some(message)) == (TaskErrorView::<S>::Fail {
            reason: "task panicked: "@ + message,
            exit_code: None,
            source: None,
        }),
        panic_error_view::<S>(None) == (TaskErrorView::<S>::Fail {
            reason: "task panicked: "@ + "non-string panic payload"@,
            exit_code: None,
            source: None,
        }),
        panic_error_view::<S>(Some(message)).retryable(),
{
}

/// An attempt event is about its attempt: the task, the number of the attempt, and the time it
/// took. A failed one also tells the reason and the exit code of its failure.
pub proof fn law_an_attempt_event_is_about_its_attempt<S>(
    run: AttemptRun,
    kind: EventKind,
    failure: AttemptFailure<S>,
    error: TaskErrorView<S>,
    duration: Duration,
)
    requires
        failure.describes(error),
    ensures
        run.event(kind, duration).kind == kind,
        run.event(kind, duration).id == Some(run.id),
        run.event(kind, duration).task == Some(run.task_name@),
        run.event(kind, duration).attempt == Some(run.attempt),
        run.event(kind, duration).duration == Some(duration),
        run.event(kind, duration).reason is None,
        run.event(kind, duration).exit_code is None,
        run.event(kind, duration).timeout is None,
        failed_event(run, failure, duration).kind == EventKind::AttemptFailed,
        failed_event(run, failure, duration).id == Some(run.id),
        failed_event(run, failure, duration).task == Some(run.task_name@),
        failed_event(run, failure, duration).attempt == Some(run.attempt),
        failed_event(run, failure, duration).duration == Some(duration),
        failed_event(run, failure, duration).reason == Some(error.message()),
        failed_event(run, failure, duration).exit_code == error.exit_code(),
        failure.error@ == error,
{
}

/// How an attempt ended is what its actor learns and what its one event says: success for success,
/// a timeout only for the configured timer, a cancellation only where the task said so, the task's
/// own error with its reason and exit code, and a panic in cleanup as a flag beside it.
pub proof fn law_an_attempt_is_classified_as_it_ended<S>(
    run: AttemptRun,
    end: AttemptEnd<S>,
    elapsed: Duration,
    report: AttemptReport<S>,
)
    requires
        call_ensures(run_once::<S>, (&run, end, elapsed), report),
    ensures
        report.event@.id == Some(run.id),
        report.event@.task == Some(run.task_name@),
        report.event@.attempt == Some(run.attempt),
        report.event@.duration == Some(elapsed),
        end is Finished && end->Finished_0 is Ok <==> report.result is Ok,
        report.result is Ok <==> report.event@.kind == EventKind::AttemptSucceeded,
        end matches AttemptEnd::Finished(Err(caught)) ==> (report.result matches Err(failure)
            && failure.error@ == caught.error@ && failure.reason@ == caught.error@.message()
            && failure.exit_code == caught.error@.exit_code() && failure.cleanup_panicked
            == caught.cleanup_panicked && (caught.error is Canceled <==> report.event@.kind
            == EventKind::AttemptCanceled) && (!(caught.error is Canceled) ==> report.event@.kind
            == EventKind::AttemptFailed && report.event@.reason == Some(caught.error@.message())
            && report.event@.exit_code == caught.error@.exit_code())),
        end matches AttemptEnd::TimedOut { timeout, disposal: None } ==> (
        report.result matches Err(failure) && failure.error@ == (TaskErrorView::<S>::Timeout {
            timeout,
        }) && !failure.cleanup_panicked && report.event@.kind == EventKind::AttemptTimedOut
            && report.event@.timeout == Some(timeout)),
        end matches AttemptEnd::TimedOut { disposal: Some(caught), .. } ==> (
        report.result matches Err(failure) && failure.error@ == caught.error@
            && failure.cleanup_panicked == caught.cleanup_panicked && report.event@.kind
            == EventKind::AttemptFailed),
        end matches AttemptEnd::SpawnPanicked { panic, payload_poisoned } ==> (
        report.result matches Err(failure) && failure.error@ is Fail && failure.cleanup_panicked
            == payload_poisoned && report.event@.kind == EventKind::AttemptFailed),
{
}

/// The boundary owns its future until it ended or was given up, and destroys it once. What a poll
/// gave is what comes out: the task's own result, unless destroying its future panicked; a panic
/// with its own text; and a flag wherever user values could not be destroyed in peace.
pub proof fn law_the_boundary_reports_each_poll<S>(
    boundary: &mut CatchPanic,
    polled: Polled<S>,
    turn: Option<Result<(), CaughtFailure<S>>>,
    drop_panic: Option<CaughtPanic>,
    failure: Option<CaughtFailure<S>>,
)
    ensures
        call_ensures(CatchPanic::poll::<S>, (boundary, polled), turn) ==> {
            &&& turn is None <==> polled is Pending
            &&& final(boundary).is_live() <==> polled is Pending
            &&& polled matches Polled::Ready { result, drop_panic: None } ==> (turn->0 is Ok
                <==> result is Ok) && (result matches Err(error) ==> turn->0->Err_0.error == error
                && !turn->0->Err_0.cleanup_panicked)
            &&& polled matches Polled::Ready { drop_panic: Some(panic), .. } ==> turn->0 is Err
                && turn->0->Err_0.cleanup_panicked && turn->0->Err_0.error@ is Fail
            &&& polled matches Polled::Panicked { panic, payload_poisoned, drop_panicked }
                ==> turn->0 is Err && turn->0->Err_0.cleanup_panicked == (payload_poisoned
                || drop_panicked) && turn->0->Err_0.error@ == panic_error_view::<S>(
                message_view(panic.message),
            )
        },
        call_ensures(CatchPanic::dispose::<S>, (boundary, drop_panic), failure) ==> {
            &&& !final(boundary).is_live()
            &&& failure is Some <==> old(boundary).is_live() && drop_panic is Some
            &&& failure is Some ==> failure->0.cleanup_panicked
        },
{
}

} // verus!
