//! What each runtime operation does with the core, the bus, and the budget it is called on.

use vstd::prelude::*;

use super::add::{slot_wait, UncommittedAdd, UncommittedBatch, UncommittedWatchedAdd};
use super::bus::BusQueue;
use super::cleanup::{CleanupPhase, CleanupTail, PhaseResult};
use super::command_gate::fence_result;
use super::event_relay::{join_subscriber_listener, BusMessage};
use super::ownership::{destructor_panic, own_task};
use super::remove::{event_views, Committed};
use super::shutdown::{ShutdownEntry, ShutdownOutcome, ShutdownTrigger};
use super::static_run::{RunStep, StaticRunClaim};
use super::{CoreView, SupervisorCore};
use crate::channel::{connected, QueueRefusal};
use crate::config::limit_view;
use crate::deferred_drop::{DropAdmissionError, DropDomain};
use crate::error::RuntimeError;
use crate::events::{Event, EventKind};
use crate::identity::TaskId;
use crate::registry::completion::{OutcomeTx, RemovalCompletion};
use crate::registry::listener::listener_panic;
use crate::registry::protocol::{AddBatchItem, AddReply, OwnedTask, RegistryCommand};
use crate::tasks::TaskSpec;

verus! {

/// The first trigger installs shutdown, closes admission, and is announced exactly where it was
/// requested; every later one joins, and changes nothing. The one result is cached for every
/// caller, and a lost owner is an unclean end.
pub proof fn law_the_first_trigger_owns_shutdown(
    core: &mut SupervisorCore,
    trigger: ShutdownTrigger,
    entry: ShutdownEntry,
)
    requires
        call_ensures(SupervisorCore::begin_shutdown, (core, trigger), entry),
    ensures
        old(core)@.shutdown.installed ==> entry is Join && final(core)@ == old(core)@,
        !old(core)@.shutdown.installed ==> {
            &&& final(core)@.shutting_down
            &&& final(core)@.shutdown.started
            &&& final(core)@.shutdown.installed
            &&& final(core)@.shutdown.outcome is None
            &&& final(core)@.running == old(core)@.running
            &&& final(core)@.started == old(core)@.started
            &&& final(core)@.ownership == old(core)@.ownership
            &&& entry matches ShutdownEntry::Owner { trigger: owned, event } && owned == trigger
                && (event is Some <==> trigger is Requested) && (event is Some ==> event->0@.kind
                == EventKind::ShutdownRequested)
        },
{
}

/// A cached result is what every caller is given from then on.
pub proof fn law_a_cached_result_is_given_to_everybody(
    core: &mut SupervisorCore,
    outcome: ShutdownOutcome,
    later: SupervisorCore,
    lost: bool,
    given: Option<ShutdownOutcome>,
)
    requires
        call_ensures(SupervisorCore::finish_shutdown, (core, outcome), ()),
        final(core)@.only_forward(later@),
        call_ensures(SupervisorCore::shutdown_outcome, (&later, lost), given),
    ensures
        given is Some,
        given->0@ == outcome@,
        final(core)@.shutting_down == old(core)@.shutting_down,
{
}

/// Before there is a result nobody is given one, unless the owner is lost.
pub proof fn law_nobody_is_given_a_result_too_early(
    core: SupervisorCore,
    lost: bool,
    given: Option<ShutdownOutcome>,
)
    requires
        core@.shutdown.outcome is None,
        call_ensures(SupervisorCore::shutdown_outcome, (&core, lost), given),
    ensures
        given is Some <==> lost,
        lost ==> given->0@ is ShuttingDown,
{
}

/// The last owner cancels the runtime exactly when no cleanup owner exists, and closes admission
/// with it.
pub proof fn law_abandoning_leaves_an_owner_alone(core: &mut SupervisorCore, cancel: bool)
    requires
        call_ensures(SupervisorCore::abandon, (core,), cancel),
    ensures
        cancel <==> !old(core)@.shutdown.installed,
        cancel ==> final(core)@.shutting_down && final(core)@.shutdown.started
            && !final(core)@.shutdown.installed,
        !cancel ==> final(core)@ == old(core)@,
        final(core)@.ownership == old(core)@.ownership,
{
}

/// Closing admission closes admission and nothing else, and every check sees it.
pub proof fn law_closed_admission_is_seen(
    core: &mut SupervisorCore,
    later: SupervisorCore,
    open: bool,
    checked: Result<(), RuntimeError>,
    closed: bool,
)
    requires
        call_ensures(SupervisorCore::mark_shutting_down, (core,), ()),
        final(core)@.only_forward(later@),
        call_ensures(SupervisorCore::command_admission, (&later,), open),
        call_ensures(SupervisorCore::check_open, (&later,), checked),
        call_ensures(SupervisorCore::is_shutting_down, (&later,), closed),
    ensures
        !open,
        checked is Err && checked->Err_0@ is ShuttingDown,
        closed,
        final(core)@ == (CoreView { shutting_down: true, ..old(core)@ }),
{
}

/// A static run takes the lifecycle exactly when nothing stands against it, and then looks at its
/// trigger first; a run without tasks goes straight to its workers, or joins a shutdown that closed
/// admission. A refused run leaves everything as it was.
pub proof fn law_a_run_takes_the_lifecycle_or_leaves_it(
    core: &mut SupervisorCore,
    tasks: usize,
    begun: Result<RunStep, RuntimeError>,
)
    requires
        call_ensures(SupervisorCore::begin_run, (core, tasks), begun),
    ensures
        ({
            let before = old(core)@;
            let limit = limit_view(before.settings.runtime@.max_registered_tasks);
            let crowded = limit is Some && tasks > limit->0;
            let oversized = before.ownership.capacity is Some && tasks > 0 && tasks
                + before.subscriber_slots > before.ownership.capacity->0;
            &&& begun is Err <==> before.running || crowded || oversized
            &&& begun is Err ==> final(core)@ == before
            &&& before.running ==> begun->Err_0@ is AlreadyRunning
            &&& begun is Ok ==> final(core)@ == (CoreView { running: true, ..before })
            &&& begun is Ok && tasks > 0 ==> begun->Ok_0 is PollTrigger
            &&& begun is Ok && tasks == 0 ==> (begun->Ok_0 is JoinStarted <==> before.shutting_down)
                && (begun->Ok_0 is StartEmpty <==> !before.shutting_down)
        }),
{
}

/// A failed start gives the lifecycle back and tells its error; a successful one keeps it for good
/// and goes on.
pub proof fn law_only_a_successful_start_keeps_the_lifecycle(
    core: &mut SupervisorCore,
    claim: StaticRunClaim,
    started: Result<(), RuntimeError>,
    next: Result<RunStep, RuntimeError>,
)
    requires
        !claim.is_committed(),
    ensures
        call_ensures(SupervisorCore::started_empty, (core, claim, started), next) ==> {
            &&& next is Ok <==> started is Ok
            &&& next is Ok ==> next->Ok_0 is Drive && final(core)@ == old(core)@
            &&& next is Err ==> next->Err_0 == started->Err_0 && final(core)@ == (CoreView {
                running: false,
                ..old(core)@
            })
        },
        call_ensures(SupervisorCore::started_for_trigger, (core, claim, started), next) ==> {
            &&& next is Ok <==> started is Ok
            &&& next is Ok ==> next->Ok_0 is JoinTrigger && final(core)@ == old(core)@
            &&& next is Err ==> next->Err_0 == started->Err_0 && final(core)@ == (CoreView {
                running: false,
                ..old(core)@
            })
        },
        call_ensures(SupervisorCore::started_batch, (core, claim, started), next) ==> {
            &&& next is Ok <==> started is Ok
            &&& next is Ok ==> next->Ok_0 is Enqueue && final(core)@ == old(core)@
            &&& next is Err ==> next->Err_0 == started->Err_0 && final(core)@ == (CoreView {
                running: false,
                ..old(core)@
            })
        },
{
}

/// A decided batch drives shutdown, a batch that only met shutdown joins it, and every other
/// refusal is told.
pub proof fn law_a_decided_batch_goes_on_or_is_told(
    core: SupervisorCore,
    decided: Result<(), RuntimeError>,
    next: Result<RunStep, RuntimeError>,
)
    requires
        call_ensures(SupervisorCore::batch_decided, (&core, decided), next),
    ensures
        decided is Ok ==> next == Ok::<RunStep, RuntimeError>(RunStep::Drive),
        decided is Err && decided->Err_0@ is ShuttingDown && core@.shutdown.started ==> next == Ok::<
            RunStep,
            RuntimeError,
        >(RunStep::JoinStarted),
        decided is Err && !(decided->Err_0@ is ShuttingDown && core@.shutdown.started) ==> next
            == Err::<RunStep, _>(decided->Err_0),
{
}

/// A claim of the lifecycle is taken once: a second one is refused until the first is given up, and
/// a committed one is never given up.
pub proof fn law_the_lifecycle_is_taken_once(
    core: &mut SupervisorCore,
    claim: Result<StaticRunClaim, RuntimeError>,
    given: StaticRunClaim,
    kept: StaticRunClaim,
)
    ensures
        call_ensures(StaticRunClaim::acquire, (core,), claim) ==> {
            &&& claim is Ok <==> !old(core)@.running
            &&& claim is Ok ==> final(core)@ == (CoreView { running: true, ..old(core)@ })
                && !claim->Ok_0.is_committed()
            &&& claim is Err ==> claim->Err_0@ is AlreadyRunning && final(core)@ == old(core)@
        },
        call_ensures(StaticRunClaim::commit, (given,), kept) ==> kept.is_committed(),
        call_ensures(StaticRunClaim::release, (given, core), ()) ==> {
            &&& given.is_committed() ==> final(core)@ == old(core)@
            &&& !given.is_committed() ==> final(core)@ == (CoreView {
                running: false,
                ..old(core)@
            })
        },
{
}

/// Startup is recorded exactly when every worker was launched.
pub proof fn law_startup_is_recorded_after_the_launch(
    core: &mut SupervisorCore,
    launched: Result<(), RuntimeError>,
    started: Result<(), RuntimeError>,
)
    requires
        call_ensures(SupervisorCore::finish_start, (core, launched), started),
    ensures
        started is Ok <==> launched is Ok,
        launched is Ok ==> final(core)@ == (CoreView { started: true, ..old(core)@ }),
        launched is Err ==> final(core)@ == old(core)@ && started->Err_0@ == launched->Err_0@,
{
}

/// A budget charges a whole batch exactly where it fits, tells its limit where it does not, and
/// ends one charge per destroyed value.
pub proof fn law_the_budget_charges_whole_batches(
    domain: &mut DropDomain,
    capacity: usize,
    count: usize,
    reserved: Result<(), DropAdmissionError>,
    poisoned: bool,
)
    requires
        old(domain)@.capacity == Some(capacity),
        old(domain)@.charged + old(domain)@.retired <= capacity,
    ensures
        call_ensures(DropDomain::try_reserve_many, (domain, count), reserved) ==> {
            &&& reserved is Ok <==> old(domain)@.charged + old(domain)@.retired + count <= capacity
            &&& reserved is Ok ==> final(domain)@.charged == old(domain)@.charged + count
                && final(domain)@.retired == old(domain)@.retired
            &&& reserved is Err ==> final(domain)@ == old(domain)@ && reserved->Err_0 == (
            DropAdmissionError::Capacity { limit: capacity })
        },
        call_ensures(DropDomain::release, (domain, poisoned), ()) && old(domain)@.charged > 0 ==> {
            &&& final(domain)@.charged == old(domain)@.charged - 1
            &&& final(domain)@.retired == old(domain)@.retired + (if poisoned {
                1int
            } else {
                0int
            })
        },
{
}

/// The bus takes an event as its newest, gives the oldest, and hands out everything when it closes.
pub proof fn law_the_bus_is_a_queue(
    bus: &mut BusQueue,
    event: Event,
    taken: Option<BusMessage>,
    rest: (Vec<BusMessage>, u64),
)
    requires
        old(bus)@.valid(),
    ensures
        call_ensures(BusQueue::publish, (bus, event), ()) ==> {
            &&& old(bus)@.closed ==> final(bus)@ == old(bus)@
            &&& !old(bus)@.closed ==> final(bus)@.events.last() == event
            &&& final(bus)@.events.len() <= final(bus)@.capacity
        },
        call_ensures(BusQueue::take, (bus,), taken) ==> {
            &&& taken is None <==> old(bus)@.events.len() == 0
            &&& taken matches Some(BusMessage::Event(first)) ==> first == old(bus)@.events[0]
                && old(bus)@.skipped == 0
            &&& taken matches Some(BusMessage::Lagged { dropped, event: first }) ==> first == old(bus)@.events[0] && dropped == old(bus)@.skipped && dropped > 0
            &&& taken is Some ==> final(bus)@.events == old(bus)@.events.skip(1)
        },
        call_ensures(BusQueue::close, (bus,), rest) ==> {
            &&& final(bus)@.closed
            &&& final(bus)@.events.len() == 0
            &&& rest.0@.len() == old(bus)@.events.len()
            &&& old(bus)@.events.len() == 0 ==> rest.1 == old(bus)@.skipped
            &&& old(bus)@.events.len() > 0 ==> rest.1 == 0
        },
{
}

/// A cleanup phase is left for the next one whatever happened in it, an unclean one stays noted,
/// and only a panic is told.
pub proof fn law_a_cleanup_phase_is_always_left(
    tail: &mut CleanupTail,
    result: PhaseResult,
    event: Option<Event>,
)
    requires
        call_ensures(CleanupTail::advance, (tail, result), event),
    ensures
        final(tail).current() == old(tail).current().next(),
        old(tail).current() != CleanupPhase::Done ==> final(tail).current() != old(tail).current(),
        final(tail).all_clean() <==> old(tail).all_clean() && result is Clean,
        event is Some <==> result is Panicked,
{
}

/// A waiting add that got its slot is sent unless admission closed meanwhile; one that did not
/// gives its user values back and tells of shutdown.
pub proof fn law_a_waiting_add_is_sent_or_given_back<P, S>(
    core: SupervisorCore,
    id: TaskId,
    owned: OwnedTask<S>,
    fresh: RemovalCompletion,
    slot: Result<P, QueueRefusal>,
    enqueued: Result<Committed<P, S, AddReply>, UncommittedAdd<S>>,
)
    requires
        call_ensures(
            SupervisorCore::finish_add_wait::<P, S>,
            (&core, id, owned, None, fresh, slot),
            enqueued,
        ),
    ensures
        enqueued is Ok <==> slot is Ok && !core@.shutting_down,
        enqueued matches Ok(committed) ==> committed.slot == slot->Ok_0 && (
        committed.command matches RegistryCommand::Add { id: target, owned: sent, completion, .. }
            && target == id && sent == owned && completion is None),
        enqueued matches Err(kept) ==> kept.cleanup == Some(owned.cleanup) && kept.error@
            is ShuttingDown,
{
}

/// Every way to send an add sends exactly that add: a charged task as it was charged, a
/// controller's task with the controller's own latch pair, a batch with every item. Whoever is
/// refused gets everything back.
pub proof fn law_every_add_is_sent_as_it_is<P, S>(
    core: SupervisorCore,
    id: TaskId,
    name: String,
    owned: OwnedTask<S>,
    done: Option<OutcomeTx<S>>,
    latch: RemovalCompletion,
    slot: Result<P, QueueRefusal>,
    granted: P,
    items: Vec<AddBatchItem<S>>,
    plain: Result<Committed<P, S, AddReply>, UncommittedAdd<S>>,
    watched: Result<Committed<P, S, AddReply>, UncommittedWatchedAdd<S>>,
    batch: Result<Committed<P, S, AddReply>, UncommittedBatch<S>>,
)
    ensures
        call_ensures(
            SupervisorCore::add_with_slot::<P, S>,
            (&core, id, owned, done, latch, slot),
            plain,
        ) ==> {
            &&& plain is Ok <==> slot is Ok && !core@.shutting_down
            &&& plain matches Ok(sent) ==> sent.slot == slot->Ok_0 && (
            sent.command matches RegistryCommand::Add {
                id: target,
                name: called,
                owned: task,
                outcome,
                completion,
                fresh,
                reply,
            } && target == id && called == owned.spec.name && task == owned && outcome == done
                && completion is None && fresh == latch && connected(reply, sent.reply))
            &&& plain matches Err(kept) ==> kept.done == done && kept.cleanup == Some(
                owned.cleanup,
            )
        },
        call_ensures(
            SupervisorCore::add_task_with_id_watched::<P, S>,
            (&core, slot, id, name, owned, done, latch),
            watched,
        ) ==> {
            &&& watched is Ok <==> slot is Ok && !core@.shutting_down
            &&& watched matches Ok(sent) ==> sent.slot == slot->Ok_0 && carries_latch(
                sent,
                id,
                name,
                owned,
                done,
                latch,
            )
            &&& watched matches Err(kept) ==> kept.name == name && kept.owned == owned && kept.done
                == done
        },
        call_ensures(
            SupervisorCore::commit_reserved_controller_add::<P, S>,
            (&core, granted, id, name, owned, done, latch),
            watched,
        ) ==> {
            &&& watched is Ok <==> !core@.shutting_down
            &&& watched matches Ok(sent) ==> sent.slot == granted && carries_latch(
                sent,
                id,
                name,
                owned,
                done,
                latch,
            )
            &&& watched matches Err(kept) ==> kept.name == name && kept.owned == owned && kept.done
                == done && kept.error@ is ShuttingDown
        },
        call_ensures(
            SupervisorCore::enqueue_add_batch_wait::<P, S>,
            (&core, slot, items),
            batch,
        ) ==> {
            &&& batch is Ok <==> slot is Ok && !core@.shutting_down
            &&& batch matches Ok(sent) ==> sent.slot == slot->Ok_0 && (
            sent.command matches RegistryCommand::AddBatch { items: carried, reply } && carried
                == items && connected(reply, sent.reply)) && sent.events@.len() == items@.len()
            &&& batch matches Err(kept) ==> kept.items == items
        },
{
    if call_ensures(SupervisorCore::enqueue_add_batch_wait::<P, S>, (&core, slot, items), batch)
        && batch is Ok {
        assert(event_views(batch->Ok_0.events@).len() == items@.len());
    }
}

/// Whether an add carries a controller's task with the controller's latch pair.
pub open spec fn carries_latch<P, S>(
    sent: Committed<P, S, AddReply>,
    id: TaskId,
    name: String,
    owned: OwnedTask<S>,
    done: Option<OutcomeTx<S>>,
    latch: RemovalCompletion,
) -> bool {
    sent.command matches RegistryCommand::Add {
        id: target,
        name: called,
        owned: task,
        outcome,
        completion,
        reply,
        ..
    } && target == id && called == name && task == owned && outcome == done && completion == Some(
        latch,
    ) && connected(reply, sent.reply)
}

/// A wait for a slot ends with shutdown before anything else; a fence holds exactly when it was
/// sent and acknowledged; the cleanup tail is clean exactly when every phase was.
pub proof fn law_waits_and_fences_end_as_they_should<P>(
    shutdown_started: bool,
    slot: Option<Result<P, QueueRefusal>>,
    turn: Option<Result<P, QueueRefusal>>,
    sent: bool,
    acknowledged: bool,
    fenced: Result<(), RuntimeError>,
    controller: PhaseResult,
    registry: PhaseResult,
    relay: PhaseResult,
    subscribers: PhaseResult,
    done: (bool, Vec<Event>),
)
    requires
        call_ensures(slot_wait::<P>, (shutdown_started, slot), turn),
        call_ensures(fence_result, (sent, acknowledged), fenced),
        call_ensures(
            CleanupTail::finish_shutdown_cleanup,
            (controller, registry, relay, subscribers),
            done,
        ),
    ensures
        shutdown_started ==> turn == Some(Err::<P, _>(QueueRefusal::Closed)),
        !shutdown_started ==> turn == slot,
        fenced is Ok <==> sent && acknowledged,
        fenced is Err ==> fenced->Err_0@ is ShuttingDown,
        done.0 <==> controller is Clean && registry is Clean && relay is Clean && subscribers
            is Clean,
{
}

/// Charging an add takes one slot and makes a fresh task of it, or takes nothing and gives the
/// sender back.
pub proof fn law_a_charged_add_is_fresh<S>(
    core: &mut SupervisorCore,
    spec: TaskSpec,
    ticket: u64,
    done: Option<OutcomeTx<S>>,
    started: Result<(), std::io::Error>,
    charged: Result<(OwnedTask<S>, Option<OutcomeTx<S>>), UncommittedAdd<S>>,
)
    requires
        call_ensures(
            SupervisorCore::charge_add::<S>,
            (core, spec, ticket, done, started),
            charged,
        ),
    ensures
        charged matches Ok((owned, kept)) ==> owned.spec == spec && kept == done
            && owned.cleanup.ticket == ticket && owned.cleanup.outcomes@.len() == 0
            && owned.cleanup.output is None && owned.cleanup.payload is None
            && !owned.cleanup.poisoned && started is Ok,
        charged matches Err(kept) ==> kept.done == done && kept.cleanup is None && final(core)@
            == old(core)@,
        started is Err ==> charged is Err,
{
}

/// A diagnostic names the component that failed and tells its text in full.
pub proof fn law_diagnostics_tell_their_text(
    text: &str,
    error: String,
    destructor: Event,
    listener: Event,
    relay: Option<Event>,
    silent: Option<Event>,
)
    requires
        call_ensures(destructor_panic, (text,), destructor),
        call_ensures(listener_panic, (text,), listener),
        call_ensures(join_subscriber_listener, (Some(error),), relay),
        call_ensures(join_subscriber_listener, (None,), silent),
    ensures
        destructor@.kind == EventKind::RuntimeFailure,
        destructor@.task == Some("task_destructor"@),
        destructor@.reason == Some("task_drop_panicked: "@ + text@),
        listener@.kind == EventKind::RuntimeFailure,
        listener@.task == Some("registry"@),
        listener@.reason == Some("listener panic: "@ + text@),
        relay is Some && relay->0@.task == Some("subscriber_listener"@) && relay->0@.reason == Some(
            "listener join failed: "@ + error@,
        ),
        silent is None,
{
}

/// Ownership is taken through the budget alone: a task that is owned is fresh, a batch is charged
/// whole once the workers run, and a destroyed value gives its slot back or retires it.
pub proof fn law_ownership_goes_through_the_budget<S>(
    core: &mut SupervisorCore,
    spec: TaskSpec,
    ticket: u64,
    owned: OwnedTask<S>,
    count: usize,
    capacity: usize,
    started: Result<(), std::io::Error>,
    reserved: Result<(), DropAdmissionError>,
    poisoned: bool,
)
    requires
        old(core)@.ownership.capacity == Some(capacity),
        old(core)@.ownership.charged + old(core)@.ownership.retired <= capacity,
    ensures
        call_ensures(own_task::<S>, (spec, ticket), owned) ==> owned.spec == spec
            && owned.cleanup.ticket == ticket && owned.cleanup.outcomes@.len() == 0
            && owned.cleanup.output is None && owned.cleanup.payload is None
            && !owned.cleanup.poisoned,
        call_ensures(SupervisorCore::try_reserve_ownership_many, (core, count, started), reserved)
            ==> {
            &&& reserved is Ok <==> started is Ok && old(core)@.ownership.charged + old(
                core)@.ownership.retired + count <= capacity
            &&& reserved is Ok ==> final(core)@.ownership.charged == old(core)@.ownership.charged
                + count
            &&& reserved is Err ==> final(core)@ == old(core)@
            &&& started matches Err(source) ==> reserved == Err::<(), _>(
                DropAdmissionError::Start { source },
            )
        },
        call_ensures(SupervisorCore::release_ownership, (core, poisoned), ()) && old(
            core)@.ownership.charged > 0 ==> final(core)@.ownership.charged == old(
            core)@.ownership.charged - 1 && final(core)@.ownership.retired == old(
            core)@.ownership.retired + (if poisoned {
            1int
        } else {
            0int
        }),
{
}

} // verus!
