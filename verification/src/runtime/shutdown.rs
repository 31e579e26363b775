//! One shutdown operation shared by every runtime caller.
//!
//! The first trigger installs the operation. Concurrent and later callers join it and receive its
//! cached result.
//!
//! ```text
//! first trigger ──► shared operation
//!                         ├── admission ──► close and request the registry fence
//!                         ├── requested or natural ──► drain tasks within grace
//!                         └── mandatory cleanup tail ──► cached result
//! ```
//!
//! A signal setup failure skips the normal task drain but still closes admission and runs the
//! common tail. Dropping the last runtime owner before an operation exists only closes admission.

use std::sync::Arc;
use std::time::Duration;
use vstd::prelude::*;
use vstd::string::*;

use super::{CoreView, SupervisorCore};
use crate::error::{RuntimeError, RuntimeErrorView};
use crate::events::{plain_event, Event, EventKind, EventView};
use crate::text::name_views;

verus! {

/// First trigger that selects the shared shutdown branch.
#[derive(Debug)]
pub enum ShutdownTrigger {
    /// A handle or application trigger requested graceful shutdown.
    Requested,
    /// The registry became empty without an explicit request.
    Natural,
    /// Operating-system signal setup failed.
    SignalSetupFailed(
        /// Source preserved for all shutdown callers.
        Arc<std::io::Error>,
    ),
}

/// Cached shutdown result that can create one owned public error per caller.
#[derive(Debug)]
pub enum ShutdownOutcome {
    /// Task drain and the common cleanup tail completed.
    Completed,
    /// The task grace window ended with pending work.
    GraceExceeded {
        /// Configured task cleanup deadline.
        grace: Duration,
        /// Names of the tasks pending at the deadline.
        stuck: Vec<String>,
    },
    /// Operating-system signal setup failed before normal task drain.
    SignalSetupFailed {
        /// Signal setup source retained for every caller.
        source: Arc<std::io::Error>,
    },
    /// Internal shutdown ownership or cleanup failed without a more specific result.
    ShuttingDown,
}

/// Contents of a [`ShutdownOutcome`], with its texts as character sequences.
pub enum ShutdownOutcomeView {
    Completed,
    GraceExceeded { grace: Duration, stuck: Seq<Seq<char>> },
    SignalSetupFailed { source: Arc<std::io::Error> },
    ShuttingDown,
}

impl View for ShutdownOutcome {
    type V = ShutdownOutcomeView;

    open spec fn view(&self) -> ShutdownOutcomeView {
        match *self {
            ShutdownOutcome::Completed => ShutdownOutcomeView::Completed,
            ShutdownOutcome::GraceExceeded { grace, stuck } => ShutdownOutcomeView::GraceExceeded {
                grace,
                stuck: name_views(stuck@),
            },
            ShutdownOutcome::SignalSetupFailed { source } =>
                ShutdownOutcomeView::SignalSetupFailed { source },
            ShutdownOutcome::ShuttingDown => ShutdownOutcomeView::ShuttingDown,
        }
    }
}

/// Outcome of a task drain.
pub open spec fn drain_outcome(result: Result<(), RuntimeErrorView>) -> ShutdownOutcomeView {
    match result {
        Ok(()) => ShutdownOutcomeView::Completed,
        Err(RuntimeErrorView::GraceExceeded { grace, stuck }) =>
            ShutdownOutcomeView::GraceExceeded { grace, stuck },
        Err(_) => ShutdownOutcomeView::ShuttingDown,
    }
}

/// A result with the contents of its error.
pub open spec fn result_view(result: Result<(), RuntimeError>) -> Result<(), RuntimeErrorView> {
    match result {
        Ok(()) => Ok(()),
        Err(error) => Err(error@),
    }
}

impl Clone for ShutdownOutcome {
    fn clone(&self) -> (copy: ShutdownOutcome)
        ensures
            copy@ == self@,
    {
        match self {
            ShutdownOutcome::Completed => ShutdownOutcome::Completed,
            ShutdownOutcome::GraceExceeded { grace, stuck } => ShutdownOutcome::GraceExceeded {
                grace: *grace,
                stuck: copy_names(stuck),
            },
            ShutdownOutcome::SignalSetupFailed { source } => ShutdownOutcome::SignalSetupFailed {
                source: Arc::clone(source),
            },
            ShutdownOutcome::ShuttingDown => ShutdownOutcome::ShuttingDown,
        }
    }
}

/// The same names once more.
fn copy_names(names: &Vec<String>) -> (copy: Vec<String>)
    ensures
        copy@ == names@,
{
    let mut copy: Vec<String> = Vec::new();
    let mut i: usize = 0;
    while i < names.len()
        invariant
            i <= names@.len(),
            copy@ == names@.take(i as int),
        decreases names@.len() - i,
    {
        copy.push(names[i].clone());
        i = i + 1;
        proof {
            assert(copy@ =~= names@.take(i as int));
        }
    }
    proof {
        assert(copy@ =~= names@);
    }
    copy
}

impl ShutdownOutcome {
    /// Reduces normal task-drain results to the cacheable outcome set.
    pub fn from_drain_result(result: Result<(), RuntimeError>) -> (outcome: ShutdownOutcome)
        ensures
            outcome@ == drain_outcome(result_view(result)),
    {
        match result {
            Ok(()) => ShutdownOutcome::Completed,
            Err(error) => match error {
                RuntimeError::GraceExceeded { grace, stuck } => ShutdownOutcome::GraceExceeded {
                    grace,
                    stuck,
                },
                _ => ShutdownOutcome::ShuttingDown,
            },
        }
    }

    /// Rebuilds one caller-owned runtime result from the cached outcome.
    ///
    /// A signal setup error with an operating-system code is made anew from that code. Any other
    /// one is wrapped: `wrap` makes an error of the given category around the shared source.
    pub fn into_result<F: FnOnce(std::io::ErrorKind, Arc<std::io::Error>) -> std::io::Error>(
        self,
        wrap: F,
    ) -> (result: Result<(), RuntimeError>)
        requires
            forall|kind: std::io::ErrorKind, source: Arc<std::io::Error>| #[trigger]
                wrap.requires((kind, source)),
        ensures
            match self@ {
                ShutdownOutcomeView::Completed => result is Ok,
                ShutdownOutcomeView::GraceExceeded { grace, stuck } => result matches Err(error)
                    && error@ == (RuntimeErrorView::GraceExceeded { grace, stuck }),
                ShutdownOutcomeView::SignalSetupFailed { source } => result matches Err(error)
                    && error@ matches RuntimeErrorView::SignalSetupFailed { source: own }
                    && rebuilt(source, wrap, own),
                ShutdownOutcomeView::ShuttingDown => result matches Err(error) && error@
                    == RuntimeErrorView::ShuttingDown,
            },
    {
        match self {
            ShutdownOutcome::Completed => Ok(()),
            ShutdownOutcome::GraceExceeded { grace, stuck } => Err(
                RuntimeError::GraceExceeded { grace, stuck },
            ),
            ShutdownOutcome::SignalSetupFailed { source } => {
                let code = source.raw_os_error();
                let kind = source.kind();
                proof {
                    assert(reads_as(*source, code, kind));
                }
                let own = match rebuild_plan(code, kind) {
                    Rebuild::FromOsCode(code) => std::io::Error::from_raw_os_error(code),
                    Rebuild::Wrap(kind) => wrap(kind, source),
                };
                Err(RuntimeError::SignalSetupFailed { source: own })
            },
            ShutdownOutcome::ShuttingDown => Err(RuntimeError::ShuttingDown),
        }
    }
}

/// How a caller's own equivalent of a shared I/O error is made.
#[derive(Clone, Copy, Debug)]
pub enum Rebuild {
    /// From its operating-system code.
    FromOsCode(i32),
    /// As an error of this category around the shared one.
    Wrap(std::io::ErrorKind),
}

/// How the equivalent of an error with this code and category is made.
pub open spec fn rebuild_for(raw_os_error: Option<i32>, kind: std::io::ErrorKind) -> Rebuild {
    match raw_os_error {
        Some(code) => Rebuild::FromOsCode(code),
        None => Rebuild::Wrap(kind),
    }
}

/// Chooses how the equivalent of an error with this code and category is made: a code says
/// everything, and without one the category is kept.
pub fn rebuild_plan(raw_os_error: Option<i32>, kind: std::io::ErrorKind) -> (plan: Rebuild)
    ensures
        plan == rebuild_for(raw_os_error, kind),
{
    match raw_os_error {
        Some(code) => Rebuild::FromOsCode(code),
        None => Rebuild::Wrap(kind),
    }
}

/// Whether an I/O error told its code and category as these.
pub open spec fn reads_as(
    error: std::io::Error,
    code: Option<i32>,
    kind: std::io::ErrorKind,
) -> bool {
    &&& call_ensures(std::io::Error::raw_os_error, (&error,), code)
    &&& call_ensures(std::io::Error::kind, (&error,), kind)
}

/// Whether an error tells this code and this category to whoever asks it.
pub open spec fn always_reads_as(
    error: std::io::Error,
    code: Option<i32>,
    kind: std::io::ErrorKind,
) -> bool {
    &&& forall|read: Option<i32>| #[trigger]
        call_ensures(std::io::Error::raw_os_error, (&error,), read) ==> read == code
    &&& forall|read: std::io::ErrorKind| #[trigger]
        call_ensures(std::io::Error::kind, (&error,), read) ==> read == kind
}

/// Whether an error is a caller's own equivalent of a shared one: made from the code that the
/// shared one told, so that it tells the same code and category, or wrapped with the category that
/// the shared one told.
pub open spec fn rebuilt<F: FnOnce(std::io::ErrorKind, Arc<std::io::Error>) -> std::io::Error>(
    source: Arc<std::io::Error>,
    wrap: F,
    own: std::io::Error,
) -> bool {
    exists|code: Option<i32>, kind: std::io::ErrorKind| #[trigger]
        reads_as(*source, code, kind) && match rebuild_for(code, kind) {
            Rebuild::FromOsCode(code) => {
                &&& call_ensures(std::io::Error::from_raw_os_error, (code,), own)
                &&& always_reads_as(own, Some(code), kind)
            },
            Rebuild::Wrap(kind) => wrap.ensures((kind, source), own),
        }
}

/// Whether a way to wrap an error keeps the category it is given and adds no operating-system code.
pub open spec fn keeps_category<
    F: FnOnce(std::io::ErrorKind, Arc<std::io::Error>) -> std::io::Error,
>(wrap: F) -> bool {
    forall|kind: std::io::ErrorKind, source: Arc<std::io::Error>, own: std::io::Error| #[trigger]
        wrap.ensures((kind, source), own) ==> always_reads_as(own, None, kind)
}

/// Every caller gets an equivalent signal setup error: whatever code and category the shared error
/// told, the caller's own tells the same.
pub proof fn law_every_caller_gets_an_equivalent_error<
    F: FnOnce(std::io::ErrorKind, Arc<std::io::Error>) -> std::io::Error,
>(source: Arc<std::io::Error>, wrap: F, own: std::io::Error)
    requires
        keeps_category(wrap),
        rebuilt(source, wrap, own),
    ensures
        exists|code: Option<i32>, kind: std::io::ErrorKind| #[trigger]
            reads_as(*source, code, kind) && always_reads_as(own, code, kind),
{
    let (code, kind) = choose|code: Option<i32>, kind: std::io::ErrorKind| #[trigger]
        reads_as(*source, code, kind) && match rebuild_for(code, kind) {
            Rebuild::FromOsCode(code) => {
                &&& call_ensures(std::io::Error::from_raw_os_error, (code,), own)
                &&& always_reads_as(own, Some(code), kind)
            },
            Rebuild::Wrap(kind) => wrap.ensures((kind, source), own),
        };
    assert(reads_as(*source, code, kind) && always_reads_as(own, code, kind));
}

/// The first shutdown operation and its result.
#[derive(Debug)]
pub struct ShutdownCoordinator {
    pub(crate) started: bool,
    pub(crate) operation_installed: bool,
    pub(crate) outcome: Option<ShutdownOutcome>,
}

/// Contents of a [`ShutdownCoordinator`].
pub struct ShutdownView {
    /// Whether shutdown has started.
    pub started: bool,
    /// Whether a cleanup owner exists.
    pub installed: bool,
    /// Cached result of that owner.
    pub outcome: Option<ShutdownOutcomeView>,
}

impl View for ShutdownCoordinator {
    type V = ShutdownView;

    open(crate) spec fn view(&self) -> ShutdownView {
        ShutdownView {
            started: self.started,
            installed: self.operation_installed,
            outcome: match self.outcome {
                Some(outcome) => Some(outcome@),
                None => None,
            },
        }
    }
}

impl ShutdownCoordinator {
    /// Coordinator with no installed operation.
    pub fn new() -> (coordinator: ShutdownCoordinator)
        ensures
            coordinator@ == (ShutdownView { started: false, installed: false, outcome: None }),
    {
        ShutdownCoordinator { started: false, operation_installed: false, outcome: None }
    }
}

/// How a caller enters the shared shutdown.
#[derive(Debug)]
pub enum ShutdownEntry {
    /// This caller's trigger comes first: run the operation detached from the caller.
    Owner {
        /// Trigger that selects the branch.
        trigger: ShutdownTrigger,
        /// Event to publish before the shutdown-start signal, if the trigger asks for one.
        event: Option<Event>,
    },
    /// An operation exists: wait for its cached outcome.
    Join,
}

/// Contents of an optional event.
pub open spec fn optional_event(event: Option<Event>) -> Option<EventView> {
    match event {
        Some(event) => Some(event@),
        None => None,
    }
}

impl SupervisorCore {
    /// Installs the first trigger's operation, or joins the one that exists.
    ///
    /// Admission closes before the shutdown-start signal. Only a requested shutdown is announced.
    pub fn begin_shutdown(&mut self, trigger: ShutdownTrigger) -> (entry: ShutdownEntry)
        requires
            old(self)@.valid(),
        ensures
            final(self)@.valid(),
            old(self)@.only_forward(final(self)@),
            if old(self)@.shutdown.installed {
                entry is Join && final(self)@ == old(self)@
            } else {
                &&& entry matches ShutdownEntry::Owner { trigger: owned, event } && {
                    &&& owned == trigger
                    &&& optional_event(event) == (if trigger is Requested {
                        Some(plain_event(EventKind::ShutdownRequested))
                    } else {
                        None
                    })
                }
                &&& final(self)@ == (CoreView {
                    shutting_down: true,
                    shutdown: ShutdownView { started: true, installed: true, outcome: None },
                    ..old(self)@
                })
            },
    {
        if self.shutdown.operation_installed {
            return ShutdownEntry::Join;
        }
        self.mark_shutting_down();
        self.shutdown.operation_installed = true;
        let event = if matches!(trigger, ShutdownTrigger::Requested) {
            Some(Event::new(EventKind::ShutdownRequested))
        } else {
            None
        };
        self.shutdown.started = true;
        ShutdownEntry::Owner { trigger, event }
    }

    /// Whether an operation is installed whose outcome is not known yet.
    pub fn awaits_outcome(&self) -> (awaits: bool)
        ensures
            awaits == (self@.shutdown.installed && self@.shutdown.outcome is None),
    {
        self.shutdown.operation_installed && self.shutdown.outcome.is_none()
    }

    /// Caches the outcome of the shutdown operation for every caller, once.
    pub fn finish_shutdown(&mut self, outcome: ShutdownOutcome)
        requires
            old(self)@.valid(),
            old(self)@.shutdown.installed,
            old(self)@.shutdown.outcome is None,
        ensures
            final(self)@.valid(),
            old(self)@.only_forward(final(self)@),
            final(self)@ == (CoreView {
                shutdown: ShutdownView { outcome: Some(outcome@), ..old(self)@.shutdown },
                ..old(self)@
            }),
    {
        self.shutdown.outcome = Some(outcome);
    }

    /// Cached outcome for one more caller, once the operation has finished.
    ///
    /// `owner_lost` says that the operation ended without an outcome.
    pub fn shutdown_outcome(&self, owner_lost: bool) -> (outcome: Option<ShutdownOutcome>)
        ensures
            match self@.shutdown.outcome {
                Some(cached) => outcome matches Some(copy) && copy@ == cached,
                None => if owner_lost {
                    outcome == Some(ShutdownOutcome::ShuttingDown)
                } else {
                    outcome is None
                },
            },
    {
        match &self.shutdown.outcome {
            Some(outcome) => Some(outcome.clone()),
            None => if owner_lost {
                Some(ShutdownOutcome::ShuttingDown)
            } else {
                None
            },
        }
    }

    /// Synchronous fallback of the last public owner. Returns whether the runtime is cancelled.
    ///
    /// An installed operation keeps cleanup ownership. Otherwise admission closes and the
    /// shutdown-start and runtime tokens are cancelled.
    pub fn abandon(&mut self) -> (cancel: bool)
        requires
            old(self)@.valid(),
        ensures
            final(self)@.valid(),
            old(self)@.only_forward(final(self)@),
            cancel == !old(self)@.shutdown.installed,
            final(self)@ == (if old(self)@.shutdown.installed {
                old(self)@
            } else {
                CoreView {
                    shutting_down: true,
                    shutdown: ShutdownView { started: true, ..old(self)@.shutdown },
                    ..old(self)@
                }
            }),
    {
        if self.shutdown.operation_installed {
            return false;
        }
        self.mark_shutting_down();
        self.shutdown.started = true;
        true
    }
}

} // verus!
