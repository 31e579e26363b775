//! Trigger-specific task drain and the mandatory cleanup tail.
//!
//! Explicit and natural shutdown fence the registry and drain tasks within the grace period. A
//! signal setup failure skips that drain. Every trigger then attempts the same cleanup order: the
//! optional controller, the runtime token, the registry listener, the event relay, and the
//! subscriber callback workers. Later phases still run after a failure or panic.

use std::time::Duration;
use vstd::prelude::*;
use vstd::string::*;

use super::shutdown::{
    drain_outcome, optional_event, result_view, ShutdownOutcome, ShutdownOutcomeView,
    ShutdownTrigger,
};
use crate::error::{RuntimeError, RuntimeErrorView};
use crate::events::{failure_event, plain_event, Event, EventKind, EventView};
use crate::text::name_views;

verus! {

/// One phase of the cleanup tail, in order.
#[derive(Clone, Copy, Debug, PartialEq, Eq, Structural)]
pub enum CleanupPhase {
    /// Join the optional controller.
    Controller,
    /// Cancel the runtime listeners.
    CancelRuntime,
    /// Join the registry listener.
    Registry,
    /// Join the event relay.
    Relay,
    /// Close the subscriber callback workers.
    Subscribers,
    /// Nothing is left.
    Done,
}

/// How one phase ended.
#[derive(Debug)]
pub enum PhaseResult {
    /// Cleanly.
    Clean,
    /// With a failure that was reported elsewhere.
    Unclean,
    /// With a panic.
    Panicked(String),
}

/// Progress of the cleanup tail.
#[derive(Debug)]
pub struct CleanupTail {
    phase: CleanupPhase,
    clean: bool,
}

impl CleanupPhase {
    /// The phase that follows, whatever happened in this one.
    pub open spec fn next(self) -> CleanupPhase {
        match self {
            CleanupPhase::Controller => CleanupPhase::CancelRuntime,
            CleanupPhase::CancelRuntime => CleanupPhase::Registry,
            CleanupPhase::Registry => CleanupPhase::Relay,
            CleanupPhase::Relay => CleanupPhase::Subscribers,
            CleanupPhase::Subscribers => CleanupPhase::Done,
            CleanupPhase::Done => CleanupPhase::Done,
        }
    }

    /// Name of the phase in a panic diagnostic.
    pub open spec fn title(self) -> Seq<char> {
        match self {
            CleanupPhase::Controller => "controller cleanup"@,
            CleanupPhase::CancelRuntime => "runtime cancellation"@,
            CleanupPhase::Registry => "registry cleanup"@,
            CleanupPhase::Relay => "subscriber listener cleanup"@,
            CleanupPhase::Subscribers => "subscriber worker cleanup"@,
            CleanupPhase::Done => "cleanup"@,
        }
    }

    /// Number of phases that are still to come, this one included.
    pub open spec fn remaining(self) -> nat {
        match self {
            CleanupPhase::Controller => 5,
            CleanupPhase::CancelRuntime => 4,
            CleanupPhase::Registry => 3,
            CleanupPhase::Relay => 2,
            CleanupPhase::Subscribers => 1,
            CleanupPhase::Done => 0,
        }
    }

    fn name(self) -> (name: &'static str)
        ensures
            name@ == self.title(),
    {
        match self {
            CleanupPhase::Controller => "controller cleanup",
            CleanupPhase::CancelRuntime => "runtime cancellation",
            CleanupPhase::Registry => "registry cleanup",
            CleanupPhase::Relay => "subscriber listener cleanup",
            CleanupPhase::Subscribers => "subscriber worker cleanup",
            CleanupPhase::Done => "cleanup",
        }
    }
}

/// Diagnostic for a caught shutdown panic.
pub open spec fn shutdown_panic_event(phase: Seq<char>, panic: Seq<char>) -> EventView {
    failure_event("shutdown_owner"@, phase + " panic: "@ + panic)
}

/// Diagnostic for a caught shutdown panic.
pub fn report_shutdown_panic(phase: &str, panic: &str) -> (event: Event)
    ensures
        event@ == shutdown_panic_event(phase@, panic@),
{
    let mut reason = phase.to_owned();
    reason.append(" panic: ");
    reason.append(panic);
    Event::runtime_failure("shutdown_owner", reason.as_str())
}

impl CleanupTail {
    /// Phase to attempt now.
    pub closed spec fn current(self) -> CleanupPhase {
        self.phase
    }

    /// Whether every phase so far ended cleanly.
    pub closed spec fn all_clean(self) -> bool {
        self.clean
    }

    /// Tail before its first phase.
    pub fn new() -> (tail: CleanupTail)
        ensures
            tail.current() == CleanupPhase::Controller,
            tail.all_clean(),
    {
        CleanupTail { phase: CleanupPhase::Controller, clean: true }
    }

    /// Phase to attempt now.
    pub fn phase(&self) -> (phase: CleanupPhase)
        ensures
            phase == self.current(),
    {
        self.phase
    }

    /// Whether every phase so far ended cleanly.
    pub fn is_clean(&self) -> (clean: bool)
        ensures
            clean == self.all_clean(),
    {
        self.clean
    }

    /// Records how the current phase ended and moves to the next.
    ///
    /// The next phase is attempted whatever happened in this one. Returns the diagnostic of a
    /// panic.
    pub fn advance(&mut self, result: PhaseResult) -> (event: Option<Event>)
        ensures
            final(self).current() == old(self).current().next(),
            old(self).current() != CleanupPhase::Done ==> final(self).current().remaining() < old(
                self,
            ).current().remaining(),
            final(self).all_clean() == (old(self).all_clean() && result is Clean),
            optional_event(event) == (match result {
                PhaseResult::Panicked(panic) => Some(
                    shutdown_panic_event(old(self).current().title(), panic@),
                ),
                _ => None,
            }),
    {
        let event = match &result {
            PhaseResult::Panicked(panic) => Some(
                report_shutdown_panic(self.phase.name(), panic.as_str()),
            ),
            _ => None,
        };
        if !matches!(result, PhaseResult::Clean) {
            self.clean = false;
        }
        self.phase = match self.phase {
            CleanupPhase::Controller => CleanupPhase::CancelRuntime,
            CleanupPhase::CancelRuntime => CleanupPhase::Registry,
            CleanupPhase::Registry => CleanupPhase::Relay,
            CleanupPhase::Relay => CleanupPhase::Subscribers,
            CleanupPhase::Subscribers => CleanupPhase::Done,
            CleanupPhase::Done => CleanupPhase::Done,
        };
        event
    }

    /// Attempts every cleanup phase, given how each of them ends.
    ///
    /// Returns whether all phases finished cleanly, and the diagnostics in order.
    pub fn finish_shutdown_cleanup(
        controller: PhaseResult,
        registry: PhaseResult,
        relay: PhaseResult,
        subscribers: PhaseResult,
    ) -> (done: (bool, Vec<Event>))
        ensures
            done.0 == (controller is Clean && registry is Clean && relay is Clean
                && subscribers is Clean),
            done.1@.map_values(|event: Event| event@) == phase_events(
                CleanupPhase::Controller,
                controller,
            ) + phase_events(CleanupPhase::Registry, registry) + phase_events(
                CleanupPhase::Relay,
                relay,
            ) + phase_events(CleanupPhase::Subscribers, subscribers),
    {
        let mut tail = CleanupTail::new();
        let mut events: Vec<Event> = Vec::new();
        let ghost view = |event: Event| event@;
        let first = tail.advance(controller);
        if let Some(event) = first {
            events.push(event);
        }
        proof {
            assert(events@.map_values(view) =~= phase_events(
                CleanupPhase::Controller,
                controller,
            ));
        }
        let _ = tail.advance(PhaseResult::Clean);
        let second = tail.advance(registry);
        if let Some(event) = second {
            events.push(event);
        }
        proof {
            assert(events@.map_values(view) =~= phase_events(CleanupPhase::Controller, controller)
                + phase_events(CleanupPhase::Registry, registry));
        }
        let third = tail.advance(relay);
        if let Some(event) = third {
            events.push(event);
        }
        proof {
            assert(events@.map_values(view) =~= phase_events(CleanupPhase::Controller, controller)
                + phase_events(CleanupPhase::Registry, registry) + phase_events(
                CleanupPhase::Relay,
                relay,
            ));
        }
        let fourth = tail.advance(subscribers);
        if let Some(event) = fourth {
            events.push(event);
        }
        proof {
            assert(events@.map_values(view) =~= phase_events(CleanupPhase::Controller, controller)
                + phase_events(CleanupPhase::Registry, registry) + phase_events(
                CleanupPhase::Relay,
                relay,
            ) + phase_events(CleanupPhase::Subscribers, subscribers));
        }
        (tail.is_clean(), events)
    }
}

/// Diagnostics of one phase.
pub open spec fn phase_events(phase: CleanupPhase, result: PhaseResult) -> Seq<EventView> {
    match result {
        PhaseResult::Panicked(panic) => seq![shutdown_panic_event(phase.title(), panic@)],
        _ => seq![],
    }
}

/// How a shutdown branch resolves: by draining the tasks, or at once.
#[derive(Debug)]
pub enum Resolution {
    /// Fence the registry and drain the tasks within grace.
    Drain,
    /// Attempt the fence, skip the drain.
    FenceOnly(ShutdownOutcome),
}

/// Selects the normal drain or the signal-failure branch.
pub fn resolve_shutdown(trigger: ShutdownTrigger) -> (resolution: Resolution)
    ensures
        match trigger {
            ShutdownTrigger::Requested => resolution is Drain,
            ShutdownTrigger::Natural => resolution is Drain,
            ShutdownTrigger::SignalSetupFailed(source) => resolution == Resolution::FenceOnly(
                ShutdownOutcome::SignalSetupFailed { source },
            ),
        },
{
    match trigger {
        ShutdownTrigger::Requested => Resolution::Drain,
        ShutdownTrigger::Natural => Resolution::Drain,
        ShutdownTrigger::SignalSetupFailed(source) => Resolution::FenceOnly(
            ShutdownOutcome::SignalSetupFailed { source },
        ),
    }
}

/// Outcome of the trigger's branch, before the cleanup tail runs.
///
/// A panic of the branch is reported and counts as unclean.
pub fn branch_outcome(resolved: Result<ShutdownOutcome, String>) -> (outcome: (
    ShutdownOutcome,
    Option<Event>,
))
    ensures
        outcome.0@ == (match resolved {
            Ok(outcome) => outcome@,
            Err(_) => ShutdownOutcomeView::ShuttingDown,
        }),
        optional_event(outcome.1) == (match resolved {
            Ok(_) => None,
            Err(panic) => Some(shutdown_panic_event("drain"@, panic@)),
        }),
{
    match resolved {
        Ok(outcome) => (outcome, None),
        Err(panic) => (
            ShutdownOutcome::ShuttingDown,
            Some(report_shutdown_panic("drain", panic.as_str())),
        ),
    }
}

/// Combines the outcome of the trigger's branch with the cleanup tail: an unclean tail hides it.
pub fn perform_shutdown(branch: ShutdownOutcome, tail_clean: bool) -> (outcome: ShutdownOutcome)
    ensures
        outcome@ == (if tail_clean {
            branch@
        } else {
            ShutdownOutcomeView::ShuttingDown
        }),
{
    if tail_clean {
        branch
    } else {
        ShutdownOutcome::ShuttingDown
    }
}

/// Outcome of the detached shutdown owner.
///
/// A panic of the owner itself is reported; the cleanup tail then runs once more, and the outcome
/// is unclean whatever that gives.
pub fn owner_outcome(performed: Result<ShutdownOutcome, String>) -> (outcome: (
    ShutdownOutcome,
    Option<Event>,
))
    ensures
        outcome.0@ == (match performed {
            Ok(outcome) => outcome@,
            Err(_) => ShutdownOutcomeView::ShuttingDown,
        }),
        optional_event(outcome.1) == (match performed {
            Ok(_) => None,
            Err(panic) => Some(shutdown_panic_event("owner"@, panic@)),
        }),
{
    match performed {
        Ok(outcome) => (outcome, None),
        Err(panic) => (
            ShutdownOutcome::ShuttingDown,
            Some(report_shutdown_panic("owner", panic.as_str())),
        ),
    }
}

/// Result and event of a task drain.
#[derive(Debug)]
pub struct Drained {
    /// Whether everything stopped in time.
    pub result: Result<(), RuntimeError>,
    /// Event to publish, unless the fence failed.
    pub event: Option<Event>,
}

/// Concludes a task drain.
///
/// `fence` is the result of the registry fence. `forced` names the actors that were aborted at the
/// deadline, `pending` the removal owners still unfinished. Both together are stuck.
pub fn drain_with_grace(
    fence: Result<(), RuntimeError>,
    grace: Duration,
    forced: Vec<String>,
    pending: Vec<String>,
) -> (drained: Drained)
    ensures
        match fence {
            Err(error) => drained.result == Err::<(), RuntimeError>(error) && drained.event is None,
            Ok(()) => if forced@.len() + pending@.len() == 0 {
                &&& drained.result is Ok
                &&& optional_event(drained.event) == Some(
                    plain_event(EventKind::AllStoppedWithinGrace),
                )
            } else {
                &&& result_view(drained.result) == Err::<(), _>(
                    RuntimeErrorView::GraceExceeded {
                        grace,
                        stuck: name_views(forced@ + pending@),
                    },
                )
                &&& optional_event(drained.event) == Some(plain_event(EventKind::GraceExceeded))
            },
        },
{
    match fence {
        Err(error) => Drained { result: Err(error), event: None },
        Ok(()) => {
            let mut stuck = forced;
            let mut pending = pending;
            stuck.append(&mut pending);
            if stuck.is_empty() {
                Drained { result: Ok(()), event: Some(Event::new(EventKind::AllStoppedWithinGrace)) }
            } else {
                Drained {
                    result: Err(RuntimeError::GraceExceeded { grace, stuck }),
                    event: Some(Event::new(EventKind::GraceExceeded)),
                }
            }
        },
    }
}

/// A drain succeeds exactly when nothing is stuck, and the cached outcome says the same.
pub proof fn law_shutdown_completes_exactly_when_nothing_is_stuck(
    grace: Duration,
    forced: Seq<String>,
    pending: Seq<String>,
    result: Result<(), RuntimeErrorView>,
)
    requires
        result == (if forced.len() + pending.len() == 0 {
            Ok::<(), RuntimeErrorView>(())
        } else {
            Err(
                RuntimeErrorView::GraceExceeded { grace, stuck: name_views(forced + pending) },
            )
        }),
    ensures
        drain_outcome(result) is Completed <==> forced.len() == 0 && pending.len() == 0,
        !(drain_outcome(result) is ShuttingDown),
{
}

} // verus!
