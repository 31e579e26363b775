//! Lifecycle observations published by the runtime.
//!
//! Events never decide anything: direct replies, completion latches and watched outcomes carry
//! results. An event says what was decided, in the order in which it was decided.

use std::time::Duration;
use vstd::prelude::*;

use crate::identity::TaskId;
use crate::outcome::TaskOutcomeKind;

verus! {

/// What an event reports.
#[derive(Clone, Copy, Debug, PartialEq, Eq, Structural)]
pub enum EventKind {
    /// An add command was committed to the registry queue.
    TaskAddRequested,
    /// The registry indexed a task.
    TaskAdded,
    /// The registry refused a task.
    TaskAddFailed,
    /// A stop was requested for a task.
    TaskRemoveRequested,
    /// A task reached its terminal outcome.
    TaskFinished,
    /// A task left the registry.
    TaskRemoved,
    /// An attempt is about to begin.
    AttemptStarting,
    /// An attempt ended without error.
    AttemptSucceeded,
    /// An attempt ended by cooperative cancellation.
    AttemptCanceled,
    /// An attempt ended with an error or a panic.
    AttemptFailed,
    /// An attempt ran past its configured timeout.
    AttemptTimedOut,
    /// Graceful shutdown was requested.
    ShutdownRequested,
    /// Every task stopped within the grace period.
    AllStoppedWithinGrace,
    /// Tasks remained at the end of the grace period.
    GraceExceeded,
    /// A subscriber queue lost events.
    SubscriberOverflow,
    /// A runtime component failed.
    RuntimeFailure,
}

/// Why the registry refused a task.
#[derive(Clone, Copy, Debug, PartialEq, Eq, Structural)]
pub enum RejectionKind {
    /// The name is taken.
    AlreadyExists,
    /// A configured limit is reached.
    ResourceLimit,
    /// Another item of the same batch was refused.
    BatchRejected,
}

/// One observation.
#[derive(Clone, Debug)]
pub struct Event {
    /// What happened.
    pub kind: EventKind,
    /// Task or component the event is about.
    pub task: Option<String>,
    /// Identity of the task.
    pub id: Option<TaskId>,
    /// Human-readable reason.
    pub reason: Option<String>,
    /// Category of a refused add.
    pub rejection: Option<RejectionKind>,
    /// Category of a terminal outcome.
    pub outcome: Option<TaskOutcomeKind>,
    /// Process-style exit code.
    pub exit_code: Option<i32>,
    /// One-based attempt number.
    pub attempt: Option<u32>,
    /// Configured attempt timeout.
    pub timeout: Option<Duration>,
    /// Time spent in the attempt.
    pub duration: Option<Duration>,
    /// Number of events lost.
    pub dropped: Option<u64>,
}

/// Contents of an [`Event`], with its texts as character sequences.
pub struct EventView {
    pub kind: EventKind,
    pub task: Option<Seq<char>>,
    pub id: Option<TaskId>,
    pub reason: Option<Seq<char>>,
    pub rejection: Option<RejectionKind>,
    pub outcome: Option<TaskOutcomeKind>,
    pub exit_code: Option<i32>,
    pub attempt: Option<u32>,
    pub timeout: Option<Duration>,
    pub duration: Option<Duration>,
    pub dropped: Option<u64>,
}

/// Characters of an optional text.
pub open spec fn text_view(text: Option<String>) -> Option<Seq<char>> {
    match text {
        Some(text) => Some(text@),
        None => None,
    }
}

impl View for Event {
    type V = EventView;

    open spec fn view(&self) -> EventView {
        EventView {
            kind: self.kind,
            task: text_view(self.task),
            id: self.id,
            reason: text_view(self.reason),
            rejection: self.rejection,
            outcome: self.outcome,
            exit_code: self.exit_code,
            attempt: self.attempt,
            timeout: self.timeout,
            duration: self.duration,
            dropped: self.dropped,
        }
    }
}

/// Event of a kind with nothing attached.
pub open spec fn plain_event(kind: EventKind) -> EventView {
    EventView {
        kind,
        task: None,
        id: None,
        reason: None,
        rejection: None,
        outcome: None,
        exit_code: None,
        attempt: None,
        timeout: None,
        duration: None,
        dropped: None,
    }
}

/// Event of a kind about one task.
pub open spec fn task_event(kind: EventKind, id: TaskId, name: Seq<char>) -> EventView {
    EventView { task: Some(name), id: Some(id), ..plain_event(kind) }
}

/// Failure of a runtime component.
pub open spec fn failure_event(component: Seq<char>, reason: Seq<char>) -> EventView {
    EventView { task: Some(component), reason: Some(reason), ..plain_event(EventKind::RuntimeFailure) }
}

impl Event {
    /// Event of a kind with nothing attached.
    pub fn new(kind: EventKind) -> (event: Event)
        ensures
            event@ == plain_event(kind),
    {
        Event {
            kind,
            task: None,
            id: None,
            reason: None,
            rejection: None,
            outcome: None,
            exit_code: None,
            attempt: None,
            timeout: None,
            duration: None,
            dropped: None,
        }
    }

    /// Failure of a runtime component, with its reason.
    pub fn runtime_failure(component: &str, reason: &str) -> (event: Event)
        ensures
            event@ == failure_event(component@, reason@),
    {
        Event::new(EventKind::RuntimeFailure).with_task(component).with_reason(reason)
    }

    /// Overflow of one subscriber queue, with its reason.
    pub fn subscriber_overflow(component: &str, reason: &str) -> (event: Event)
        ensures
            event@ == (EventView {
                task: Some(component@),
                reason: Some(reason@),
                ..plain_event(EventKind::SubscriberOverflow)
            }),
    {
        Event::new(EventKind::SubscriberOverflow).with_task(component).with_reason(reason)
    }

    /// Attaches the task or component name.
    pub fn with_task(self, task: &str) -> (event: Event)
        ensures
            event@ == (EventView { task: Some(task@), ..self@ }),
    {
        let mut event = self;
        event.task = Some(task.to_owned());
        event
    }

    /// Attaches the task identity.
    pub fn with_id(self, id: TaskId) -> (event: Event)
        ensures
            event@ == (EventView { id: Some(id), ..self@ }),
    {
        let mut event = self;
        event.id = Some(id);
        event
    }

    /// Attaches a reason.
    pub fn with_reason(self, reason: &str) -> (event: Event)
        ensures
            event@ == (EventView { reason: Some(reason@), ..self@ }),
    {
        let mut event = self;
        event.reason = Some(reason.to_owned());
        event
    }

    /// Attaches the category of a refused add.
    pub fn with_rejection_kind(self, rejection: RejectionKind) -> (event: Event)
        ensures
            event@ == (EventView { rejection: Some(rejection), ..self@ }),
    {
        let mut event = self;
        event.rejection = Some(rejection);
        event
    }

    /// Attaches the category of a terminal outcome.
    pub fn with_outcome_kind(self, outcome: TaskOutcomeKind) -> (event: Event)
        ensures
            event@ == (EventView { outcome: Some(outcome), ..self@ }),
    {
        let mut event = self;
        event.outcome = Some(outcome);
        event
    }

    /// Attaches a process-style exit code.
    pub fn with_exit_code(self, exit_code: i32) -> (event: Event)
        ensures
            event@ == (EventView { exit_code: Some(exit_code), ..self@ }),
    {
        let mut event = self;
        event.exit_code = Some(exit_code);
        event
    }

    /// Attaches the attempt number.
    pub fn with_attempt(self, attempt: u32) -> (event: Event)
        ensures
            event@ == (EventView { attempt: Some(attempt), ..self@ }),
    {
        let mut event = self;
        event.attempt = Some(attempt);
        event
    }

    /// Attaches the configured attempt timeout.
    pub fn with_timeout(self, timeout: Duration) -> (event: Event)
        ensures
            event@ == (EventView { timeout: Some(timeout), ..self@ }),
    {
        let mut event = self;
        event.timeout = Some(timeout);
        event
    }

    /// Attaches the time spent in the attempt.
    pub fn with_duration(self, duration: Duration) -> (event: Event)
        ensures
            event@ == (EventView { duration: Some(duration), ..self@ }),
    {
        let mut event = self;
        event.duration = Some(duration);
        event
    }

    /// Attaches the number of lost events.
    pub fn with_dropped(self, dropped: u64) -> (event: Event)
        ensures
            event@ == (EventView { dropped: Some(dropped), ..self@ }),
    {
        let mut event = self;
        event.dropped = Some(dropped);
        event
    }
}

/// An event is read as it is: every field of its contents is the field itself.
pub proof fn law_an_event_is_read_as_it_is(event: Event)
    ensures
        event@.kind == event.kind,
        event@.id == event.id,
        event@.rejection == event.rejection,
        event@.outcome == event.outcome,
        event@.exit_code == event.exit_code,
        event@.attempt == event.attempt,
        event@.timeout == event.timeout,
        event@.duration == event.duration,
        event@.dropped == event.dropped,
        event.task is None <==> event@.task is None,
        event.task matches Some(task) ==> event@.task == Some(task@),
        event.reason is None <==> event@.reason is None,
        event.reason matches Some(reason) ==> event@.reason == Some(reason@),
{
}

/// An event about a task names that task and no more, and one about a failed component names the
/// component and the reason.
pub proof fn law_an_event_says_only_what_it_is_about(
    kind: EventKind,
    id: TaskId,
    name: Seq<char>,
    reason: Seq<char>,
)
    ensures
        task_event(kind, id, name) == (EventView {
            kind,
            task: Some(name),
            id: Some(id),
            reason: None,
            rejection: None,
            outcome: None,
            exit_code: None,
            attempt: None,
            timeout: None,
            duration: None,
            dropped: None,
        }),
        failure_event(name, reason).kind == EventKind::RuntimeFailure,
        failure_event(name, reason).task == Some(name),
        failure_event(name, reason).reason == Some(reason),
        failure_event(name, reason).id is None,
        plain_event(kind).kind == kind,
        plain_event(kind).task is None && plain_event(kind).id is None,
        plain_event(kind).reason is None && plain_event(kind).attempt is None,
{
}

/// A builder attaches what it names and keeps everything else.
pub proof fn law_event_builders_attach_one_thing(
    event: Event,
    next: Event,
    text: &str,
    id: TaskId,
    kind: EventKind,
    rejection: RejectionKind,
    outcome: TaskOutcomeKind,
    code: i32,
    attempt: u32,
    time: Duration,
    dropped: u64,
)
    ensures
        call_ensures(Event::new, (kind,), next) ==> next.kind == kind && next.task is None
            && next.id is None && next.reason is None && next.rejection is None && next.outcome
            is None && next.exit_code is None && next.attempt is None && next.timeout is None
            && next.duration is None && next.dropped is None,
        call_ensures(Event::with_task, (event, text), next) ==> next@ == (EventView {
            task: Some(text@),
            ..event@
        }),
        call_ensures(Event::with_id, (event, id), next) ==> next@ == (EventView {
            id: Some(id),
            ..event@
        }),
        call_ensures(Event::with_reason, (event, text), next) ==> next@ == (EventView {
            reason: Some(text@),
            ..event@
        }),
        call_ensures(Event::with_rejection_kind, (event, rejection), next) ==> next@ == (EventView {
            rejection: Some(rejection),
            ..event@
        }),
        call_ensures(Event::with_outcome_kind, (event, outcome), next) ==> next@ == (EventView {
            outcome: Some(outcome),
            ..event@
        }),
        call_ensures(Event::with_exit_code, (event, code), next) ==> next@ == (EventView {
            exit_code: Some(code),
            ..event@
        }),
        call_ensures(Event::with_attempt, (event, attempt), next) ==> next@ == (EventView {
            attempt: Some(attempt),
            ..event@
        }),
        call_ensures(Event::with_timeout, (event, time), next) ==> next@ == (EventView {
            timeout: Some(time),
            ..event@
        }),
        call_ensures(Event::with_duration, (event, time), next) ==> next@ == (EventView {
            duration: Some(time),
            ..event@
        }),
        call_ensures(Event::with_dropped, (event, dropped), next) ==> next@ == (EventView {
            dropped: Some(dropped),
            ..event@
        }),
{
}

} // verus!
