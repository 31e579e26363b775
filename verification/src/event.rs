//! Events stamped with the wall clock.

use std::time::{Duration, SystemTime};
use vstd::prelude::*;

use crate::events::text_view;

verus! {

/// `std::time::SystemTime`, carried through and never inspected.
#[verifier::external_type_specification]
#[verifier::external_body]
pub struct ExSystemTime(SystemTime);

/// Whether the wall clock was read as this time.
pub closed spec fn clock_read(at: SystemTime) -> bool {
    call_ensures(wall_clock, (), at)
}

/// Reads the wall clock.
///
/// Wraps `std::time::SystemTime::now`. Nothing is claimed of the time.
#[verifier::external_body]
fn wall_clock() -> (now: SystemTime) {
    SystemTime::now()
}

/// What happened.
#[derive(Debug, Clone, Copy, PartialEq, Eq, Structural)]
pub enum EventKind {
    ShutdownRequested,
    BackoffScheduled,
    AllStoppedWithin,
    GraceExceeded,
    TaskStarting,
    TaskStopped,
    TaskFailed,
    TimeoutHit,
}

/// One stamped event.
#[derive(Debug)]
pub struct Event {
    pub timeout: Option<Duration>,
    pub delay: Option<Duration>,
    pub error: Option<String>,
    pub attempt: Option<u64>,
    pub task: Option<String>,
    pub kind: EventKind,
    pub at: SystemTime,
}

/// Contents of an [`Event`], with its texts as character sequences.
pub struct EventView {
    pub timeout: Option<Duration>,
    pub delay: Option<Duration>,
    pub error: Option<Seq<char>>,
    pub attempt: Option<u64>,
    pub task: Option<Seq<char>>,
    pub kind: EventKind,
    pub at: SystemTime,
}

impl View for Event {
    type V = EventView;

    open spec fn view(&self) -> EventView {
        EventView {
            timeout: self.timeout,
            delay: self.delay,
            error: text_view(self.error),
            attempt: self.attempt,
            task: text_view(self.task),
            kind: self.kind,
            at: self.at,
        }
    }
}

impl Clone for Event {
    fn clone(&self) -> (copy: Event)
        ensures
            copy@ == self@,
    {
        Event {
            timeout: self.timeout,
            delay: self.delay,
            error: match &self.error {
                Some(error) => Some(error.clone()),
                None => None,
            },
            attempt: self.attempt,
            task: match &self.task {
                Some(task) => Some(task.clone()),
                None => None,
            },
            kind: self.kind,
            at: self.at,
        }
    }
}

impl Event {
    /// Event that happened at the given time, with nothing attached.
    pub fn stamped(kind: EventKind, at: SystemTime) -> (event: Event)
        ensures
            event@ == (EventView {
                timeout: None,
                delay: None,
                error: None,
                attempt: None,
                task: None,
                kind,
                at,
            }),
    {
        Event { kind, at, attempt: None, timeout: None, error: None, delay: None, task: None }
    }

    /// Event that happens now, with nothing attached.
    ///
    /// What the time is, is up to the clock; [`stamped`](Self::stamped) says what follows.
    pub fn now(kind: EventKind) -> (event: Event)
        ensures
            clock_read(event@.at),
            event@ == (EventView {
                timeout: None,
                delay: None,
                error: None,
                attempt: None,
                task: None,
                kind,
                at: event@.at,
            }),
    {
        Event::stamped(kind, wall_clock())
    }

    /// Attaches an error text.
    pub fn with_error<M: Into<String>>(self, msg: M) -> (event: Event)
        ensures
            exists|text: String| #[trigger]
                call_ensures(<M as Into<String>>::into, (msg,), text) && event@ == (EventView {
                    error: Some(text@),
                    ..self@
                }),
    {
        let mut event = self;
        event.error = Some(msg.into());
        event
    }

    /// Attaches a task name.
    pub fn with_task<N: Into<String>>(self, name: N) -> (event: Event)
        ensures
            exists|text: String| #[trigger]
                call_ensures(<N as Into<String>>::into, (name,), text) && event@ == (EventView {
                    task: Some(text@),
                    ..self@
                }),
    {
        let mut event = self;
        event.task = Some(name.into());
        event
    }

    /// Attaches a timeout.
    pub fn with_timeout(self, d: Duration) -> (event: Event)
        ensures
            event@ == (EventView { timeout: Some(d), ..self@ }),
    {
        let mut event = self;
        event.timeout = Some(d);
        event
    }

    /// Attaches a delay.
    pub fn with_delay(self, d: Duration) -> (event: Event)
        ensures
            event@ == (EventView { delay: Some(d), ..self@ }),
    {
        let mut event = self;
        event.delay = Some(d);
        event
    }

    /// Attaches an attempt number.
    pub fn with_attempt(self, n: u64) -> (event: Event)
        ensures
            event@ == (EventView { attempt: Some(n), ..self@ }),
    {
        let mut event = self;
        event.attempt = Some(n);
        event
    }
}

/// A stamped event is read as it is; a fresh one carries its kind, the time that the clock told,
/// and nothing else, and a builder attaches what it names and keeps the rest.
pub proof fn law_a_stamped_event_keeps_what_it_is_given(
    event: Event,
    next: Event,
    kind: EventKind,
    at: SystemTime,
    time: Duration,
    number: u64,
)
    ensures
        event@.kind == event.kind && event@.at == event.at && event@.timeout == event.timeout,
        event@.delay == event.delay && event@.attempt == event.attempt,
        event.error matches Some(error) ==> event@.error == Some(error@),
        event.task matches Some(task) ==> event@.task == Some(task@),
        event.error is None <==> event@.error is None,
        event.task is None <==> event@.task is None,
        call_ensures(Event::stamped, (kind, at), next) ==> next.kind == kind && next.at == at
            && next.timeout is None && next.delay is None && next.error is None && next.attempt
            is None && next.task is None,
        call_ensures(Event::now, (kind,), next) ==> next.kind == kind && clock_read(next.at)
            && next.timeout is None && next.delay is None && next.error is None && next.attempt
            is None && next.task is None,
        call_ensures(Event::with_timeout, (event, time), next) ==> next@ == (EventView {
            timeout: Some(time),
            ..event@
        }),
        call_ensures(Event::with_delay, (event, time), next) ==> next@ == (EventView {
            delay: Some(time),
            ..event@
        }),
        call_ensures(Event::with_attempt, (event, number), next) ==> next@ == (EventView {
            attempt: Some(number),
            ..event@
        }),
{
}

} // verus!
