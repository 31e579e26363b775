//! The one task that polls physical reaper work.
//!
//! Closing the coordinator stops new reaper admission and drains queued work. It ends when nothing
//! is left to poll.

use vstd::prelude::*;

use crate::channel::{runtime_probed, tokio_runtime_active};

verus! {

/// Coordinator input for physical reaping. `F` is the operation to poll.
#[derive(Debug)]
pub enum ReaperCommand<F> {
    /// Physical owner accepted by the coordinator.
    Reap(F),
    /// Coordinator admission closure.
    Close,
}

/// What the coordinator waits for.
#[derive(Clone, Copy, Debug, PartialEq, Eq, Structural)]
pub enum CoordinatorTurn {
    /// Nothing is left: end.
    Stop,
    /// Wait for a command or a finished operation, whichever of them is listened to.
    Wait {
        /// Whether commands are still taken.
        commands: bool,
        /// Whether there is an operation to poll.
        operations: bool,
    },
}

/// State of the coordinator loop.
#[derive(Debug)]
pub struct ReaperCoordinator {
    closing: bool,
}

impl ReaperCoordinator {
    /// Whether admission is closed.
    pub closed spec fn is_closing(self) -> bool {
        self.closing
    }

    /// Coordinator that takes commands.
    pub fn new() -> (coordinator: ReaperCoordinator)
        ensures
            !coordinator.is_closing(),
    {
        ReaperCoordinator { closing: false }
    }

    /// Begins a turn. `idle` says whether there is no operation to poll.
    ///
    /// A turn never waits for nothing: while operations remain they are polled, and an idle
    /// coordinator either takes commands or ends.
    pub fn turn(&self, idle: bool) -> (turn: CoordinatorTurn)
        ensures
            turn == (if self.is_closing() && idle {
                CoordinatorTurn::Stop
            } else {
                CoordinatorTurn::Wait { commands: !self.is_closing(), operations: !idle }
            }),
            turn matches CoordinatorTurn::Wait { commands, operations } ==> commands || operations,
    {
        if self.closing && idle {
            CoordinatorTurn::Stop
        } else {
            CoordinatorTurn::Wait { commands: !self.closing, operations: !idle }
        }
    }

    /// Takes one command and returns the operation to poll, if it brings one.
    ///
    /// A closure, or the loss of every sender, closes admission. Operations queued before that are
    /// still accepted.
    pub fn receive<F>(&mut self, command: Option<ReaperCommand<F>>) -> (operation: Option<F>)
        ensures
            operation == (match command {
                Some(ReaperCommand::Reap(operation)) => Some(operation),
                _ => None,
            }),
            final(self).is_closing() == (old(self).is_closing() || !(command matches Some(
                ReaperCommand::Reap(_),
            ))),
    {
        match command {
            Some(ReaperCommand::Reap(operation)) => Some(operation),
            Some(ReaperCommand::Close) => {
                self.closing = true;
                None
            },
            None => {
                self.closing = true;
                None
            },
        }
    }
}

/// Who polls a physical owner.
#[derive(Clone, Copy, Debug, PartialEq, Eq, Structural)]
pub enum PhysicalOwner {
    /// The coordinator.
    Coordinator,
    /// A detached task.
    Detached,
    /// Nobody: it is kept forever instead of being destroyed in an uncontrolled context.
    Retained,
}

/// Who polls a physical owner.
pub open spec fn owner_for(queued: bool, runtime_available: bool) -> PhysicalOwner {
    if queued {
        PhysicalOwner::Coordinator
    } else if runtime_available {
        PhysicalOwner::Detached
    } else {
        PhysicalOwner::Retained
    }
}

/// Chooses who polls a physical owner, given where it is submitted: the coordinator, or a detached
/// task where the coordinator is closed, or nobody where there is no Tokio runtime either.
pub fn physical_owner_in(queued: bool, runtime_available: bool) -> (owner: PhysicalOwner)
    ensures
        owner == owner_for(queued, runtime_available),
{
    if queued {
        PhysicalOwner::Coordinator
    } else if runtime_available {
        PhysicalOwner::Detached
    } else {
        PhysicalOwner::Retained
    }
}

/// Chooses who polls a physical owner that is submitted here.
///
/// Whether a Tokio runtime is active is up to the caller's context; [`physical_owner_in`] says what
/// follows.
pub fn physical_owner(queued: bool) -> (owner: PhysicalOwner)
    ensures
        exists|active: bool| #[trigger]
            runtime_probed(active) && owner == owner_for(queued, active),
{
    let active = tokio_runtime_active();
    proof {
        assert(runtime_probed(active));
    }
    physical_owner_in(queued, active)
}

/// Whether joining the coordinator was clean.
///
/// It is not awaited while attempts are active, nor when it was never started; `joined` is the
/// result of awaiting it.
pub fn coordinator_join(active: usize, joined: Option<bool>) -> (clean: bool)
    ensures
        clean == (active != 0 || joined is None || joined == Some(true)),
{
    if active != 0 {
        return true;
    }
    match joined {
        Some(clean) => clean,
        None => true,
    }
}

/// A physical owner is destroyed nowhere uncontrolled: the coordinator polls it if it took it, else
/// a detached task where there is a runtime, and only without either it is kept.
pub proof fn law_a_physical_owner_is_always_owned(queued: bool, runtime_available: bool)
    ensures
        owner_for(queued, runtime_available) == PhysicalOwner::Coordinator <==> queued,
        owner_for(queued, runtime_available) == PhysicalOwner::Detached <==> !queued
            && runtime_available,
        owner_for(queued, runtime_available) == PhysicalOwner::Retained <==> !queued
            && !runtime_available,
{
}

/// The coordinator ends exactly when it is closed and idle, never waits for nothing, takes every
/// operation it is given, and once closed stays closed.
pub proof fn law_the_coordinator_drains_before_it_ends<F>(
    coordinator: &mut ReaperCoordinator,
    command: Option<ReaperCommand<F>>,
    operation: Option<F>,
    idle: bool,
    turn: CoordinatorTurn,
    active: usize,
    joined: Option<bool>,
    clean: bool,
)
    ensures
        call_ensures(ReaperCoordinator::receive::<F>, (coordinator, command), operation) ==> {
            &&& command matches Some(ReaperCommand::Reap(given)) ==> operation == Some(given)
                && final(coordinator).is_closing() == old(coordinator).is_closing()
            &&& !(command is Some && command->0 is Reap) ==> operation is None
                && final(coordinator).is_closing()
            &&& old(coordinator).is_closing() ==> final(coordinator).is_closing()
        },
        call_ensures(ReaperCoordinator::turn, (old(coordinator), idle), turn) ==> {
            &&& turn is Stop <==> old(coordinator).is_closing() && idle
            &&& turn matches CoordinatorTurn::Wait { commands, operations } ==> commands == !old(
                coordinator).is_closing() && operations == !idle
        },
        call_ensures(coordinator_join, (active, joined), clean) ==> (clean <==> active != 0
            || joined is None || joined->0),
{
}

} // verus!
