//! What callers of the runtime can rely on, whatever the queue, the budget, and the workers say.

use std::sync::Arc;
use std::time::Duration;
use tokio::sync::{mpsc, oneshot};
use vstd::prelude::*;

use super::add::{
    add_after_start, adds, await_add_batch_reply, await_add_reply, batch_requests, UncommittedAdd,
};
use super::bus::BusView;
use super::cancel::{
    await_cancel_reply, cancellation_after, named_cancellation_after, wait_cancel_decision,
    CancelWait,
};
use super::cleanup::{
    branch_outcome, drain_with_grace, owner_outcome, perform_shutdown, phase_events,
    resolve_shutdown, CleanupPhase, Drained, PhaseResult, Resolution,
};
use super::command_gate::gated;
use super::event_relay::{
    drain_pending, forwarded, gaps, lost, overflow_event, relay_message, saturated, BusMessage,
    SHUTDOWN_RELAY_DRAIN_LIMIT,
};
use super::lifecycle::{start_plan, workers, Startup, Worker};
use super::ownership::{admission_error, wait_for_ownership};
use super::remove::{
    await_remove_reply, event_views, named_removal_after, removal_after, Committed,
};
use super::shutdown::{drain_outcome, ShutdownOutcome, ShutdownOutcomeView, ShutdownTrigger};
use super::static_run::{batch_reserved, RunStep, RunWake, StaticRunClaim};
use super::{CoreView, SupervisorCore};
use crate::channel::{connected, QueueRefusal};
use crate::config::limit_view;
use crate::deferred_drop::{DropAdmissionError, DropBundle};
use crate::error::{RuntimeError, RuntimeErrorView};
use crate::events::{Event, EventKind};
use crate::identity::TaskId;
use crate::registry::completion::{OutcomeTx, RemovalCompletion};
use crate::registry::protocol::{
    AddBatchItem, AddReply, CancelDecision, CancelReply, OwnedTask, RegistryCommand, RemoveReply,
};
use crate::supervisor::{fits_budget, stopped, SupervisorBuilder};
use crate::tasks::TaskSpec;
use crate::text::decimal;

verus! {

/// Closed admission lets nothing through, a granted slot passes open admission untouched, and a
/// refused one is told apart: a full queue is full, a closed one is shutdown.
pub proof fn law_only_a_granted_slot_passes<P>(
    core: CoreView,
    slot: Result<P, QueueRefusal>,
    passed: Result<P, RuntimeError>,
)
    requires
        gated(core, slot, passed),
    ensures
        passed is Ok <==> !core.shutting_down && slot is Ok,
        passed is Ok ==> passed->Ok_0 == slot->Ok_0,
        passed is Err ==> (passed->Err_0@ is CommandQueueFull <==> !core.shutting_down && slot
            == Err::<P, _>(QueueRefusal::Full)),
        passed is Err ==> (passed->Err_0@ is ShuttingDown <==> core.shutting_down || slot == Err::<
            P,
            _,
        >(QueueRefusal::Closed)),
{
}

/// Whether a command was turned away, and why.
pub open spec fn turned_away_for(
    core: CoreView,
    refusal: Option<QueueRefusal>,
    error: RuntimeErrorView,
) -> bool {
    if core.shutting_down || refusal == Some(QueueRefusal::Closed) {
        error is ShuttingDown
    } else {
        refusal == Some(QueueRefusal::Full) && error is CommandQueueFull
    }
}

/// Refusal of a slot, if it is one.
pub open spec fn refusal_of<P>(slot: Result<P, QueueRefusal>) -> Option<QueueRefusal> {
    match slot {
        Ok(_) => None,
        Err(refusal) => Some(refusal),
    }
}

/// A stop request is sent exactly when admission is open and the queue gave a slot: through that
/// slot, for the task it names, with an answer that reaches the caller. Only a removal by identity
/// announces itself beforehand. Otherwise nothing is sent and the caller is told why.
pub proof fn law_stop_requests_are_sent_or_refused<P, S>(
    core: CoreView,
    slot: Result<P, QueueRefusal>,
    id: TaskId,
    reason: Option<&'static str>,
    name: String,
    removed: Result<Committed<P, S, RemoveReply>, RuntimeError>,
    removed_by_name: Result<Committed<P, S, RemoveReply>, RuntimeError>,
    canceled: Result<Committed<P, S, CancelReply>, RuntimeError>,
    canceled_by_name: Result<Committed<P, S, CancelReply>, RuntimeError>,
)
    requires
        removal_after(core, slot, id, reason, removed),
        named_removal_after(core, slot, name, removed_by_name),
        cancellation_after(core, slot, id, canceled),
        named_cancellation_after(core, slot, name, canceled_by_name),
    ensures
        !core.shutting_down && slot is Ok ==> {
            &&& removed matches Ok(committed) && committed.slot == slot->Ok_0 && (
            committed.command matches RegistryCommand::Remove { id: target, reply } && target == id
                && connected(reply, committed.reply)) && committed.events@.len() == 1 && ({
                let event = committed.events@[0]@;
                &&& event.kind == EventKind::TaskRemoveRequested
                &&& event.id == Some(id)
                &&& event.task is None
                &&& reason is None <==> event.reason is None
                &&& reason is Some ==> event.reason == Some(reason->0@)
            })
            &&& removed_by_name matches Ok(committed) && committed.slot == slot->Ok_0 && (
            committed.command matches RegistryCommand::RemoveByName { name: target, reply }
                && target == name && connected(reply, committed.reply)) && committed.events@.len()
                == 0
            &&& canceled matches Ok(committed) && committed.slot == slot->Ok_0 && (
            committed.command matches RegistryCommand::Cancel { id: target, reply } && target == id
                && connected(reply, committed.reply)) && committed.events@.len() == 0
            &&& canceled_by_name matches Ok(committed) && committed.slot == slot->Ok_0 && (
            committed.command matches RegistryCommand::CancelByName { name: target, reply }
                && target == name && connected(reply, committed.reply)) && committed.events@.len()
                == 0
        },
        core.shutting_down || slot is Err ==> {
            &&& removed matches Err(error) && turned_away_for(core, refusal_of(slot), error@)
            &&& removed_by_name matches Err(error) && turned_away_for(
                core,
                refusal_of(slot),
                error@,
            )
            &&& canceled matches Err(error) && turned_away_for(core, refusal_of(slot), error@)
            &&& canceled_by_name matches Err(error) && turned_away_for(
                core,
                refusal_of(slot),
                error@,
            )
        },
{
    if !core.shutting_down && slot is Ok {
        let committed = removed->Ok_0;
        assert(event_views(committed.events@).len() == 1);
        assert(event_views(committed.events@)[0] == committed.events@[0]@);
    }
}

/// An add command carries exactly the task it was made for, and is answered to its caller.
pub proof fn law_an_add_command_carries_its_task<S>(
    command: RegistryCommand<S>,
    answer: oneshot::Receiver<AddReply>,
    id: TaskId,
    name: String,
    owned: OwnedTask<S>,
    done: Option<OutcomeTx<S>>,
    completion: Option<RemovalCompletion>,
    fresh: RemovalCompletion,
)
    requires
        adds(command, answer, id, name, owned, done, completion, fresh),
    ensures
        exists|reply: oneshot::Sender<AddReply>| #[trigger]
            connected(reply, answer) && command == (RegistryCommand::Add {
                id,
                name,
                owned,
                outcome: done,
                completion,
                fresh,
                reply,
            }),
{
    let reply = command->Add_reply;
    assert(connected(reply, answer));
}

/// A batch announces each of its items once, in order, by its own identity and name.
pub proof fn law_a_batch_announces_every_item<S>(items: Seq<AddBatchItem<S>>, i: int)
    requires
        0 <= i < items.len(),
    ensures
        batch_requests(items).len() == items.len(),
        batch_requests(items)[i].kind == EventKind::TaskAddRequested,
        batch_requests(items)[i].id == Some(items[i].id),
        batch_requests(items)[i].task == Some(items[i].name@),
        batch_requests(items)[i].reason is None,
{
}

/// A fail-fast add takes exactly one slot of the budget before it asks the queue again. It is
/// refused untouched where the workers do not start or the budget is exhausted; where the queue
/// refuses it after that, its user values come back with their charge; else it is sent as a fresh
/// task without a latch pair of its own.
pub proof fn law_a_fail_fast_add_charges_one_slot<'a, S>(
    before: CoreView,
    sender: &'a mpsc::Sender<RegistryCommand<S>>,
    id: TaskId,
    spec: TaskSpec,
    ticket: u64,
    done: Option<OutcomeTx<S>>,
    fresh: RemovalCompletion,
    capacity: usize,
    started: Result<(), std::io::Error>,
    after: CoreView,
    enqueued: Result<
        Committed<mpsc::Permit<'a, RegistryCommand<S>>, S, AddReply>,
        UncommittedAdd<S>,
    >,
)
    requires
        before.ownership.capacity == Some(capacity),
        before.ownership.charged + before.ownership.retired <= capacity,
        add_after_start(before, sender, id, spec, ticket, done, fresh, started, after, enqueued),
    ensures
        ({
            let full = before.ownership.charged + before.ownership.retired == capacity;
            &&& started matches Err(source) ==> after == before && (enqueued matches Err(kept)
                && kept.done == done && kept.cleanup is None && kept.error@ == (
            RuntimeErrorView::ThreadStartFailed { component: "destructor_isolation"@, source }))
            &&& started is Ok && full ==> after == before && (enqueued matches Err(kept)
                && kept.done == done && kept.cleanup is None && kept.error@ == (
            RuntimeErrorView::ResourceLimitReached {
                resource: "owned_user_lifetimes"@,
                limit: capacity,
            }))
            &&& started is Ok && !full ==> {
                &&& after.ownership.charged == before.ownership.charged + 1
                &&& after.ownership.retired == before.ownership.retired
                &&& after == (CoreView { ownership: after.ownership, ..before })
                &&& enqueued matches Err(kept) ==> kept.done == done && (
                kept.cleanup matches Some(bundle) && untouched(bundle, ticket)) && (
                kept.error@ is CommandQueueFull || kept.error@ is ShuttingDown)
                &&& enqueued matches Ok(committed) ==> (
                committed.command matches RegistryCommand::Add {
                    id: target,
                    name,
                    owned,
                    outcome,
                    completion,
                    fresh: spare,
                    reply,
                } && target == id && name == spec.name && owned.spec == spec && untouched(
                    owned.cleanup,
                    ticket,
                ) && outcome == done && completion is None && spare == fresh && connected(
                    reply,
                    committed.reply,
                ))
            }
        }),
{
}

/// Whether a bundle holds the user values of a ticket and nothing that happened to them.
pub open spec fn untouched<S>(bundle: DropBundle<S>, ticket: u64) -> bool {
    &&& bundle.ticket == ticket
    &&& bundle.outcomes@.len() == 0
    &&& bundle.output is None
    &&& bundle.payload is None
    &&& !bundle.poisoned
}

/// Refused cleanup capacity is told as what it is: workers that did not start keep their source, an
/// exhausted budget tells its limit.
pub proof fn law_refused_capacity_is_told_as_it_is(source: std::io::Error, limit: usize)
    ensures
        admission_error(DropAdmissionError::Start { source }) == (
        RuntimeErrorView::ThreadStartFailed { component: "destructor_isolation"@, source }),
        admission_error(DropAdmissionError::Capacity { limit }) == (
        RuntimeErrorView::ResourceLimitReached { resource: "owned_user_lifetimes"@, limit }),
{
}

/// Charging a budget touches the budget and nothing else of the runtime.
pub proof fn law_a_charge_touches_only_the_budget(core: CoreView, count: nat)
    requires
        core.ownership.charged + core.ownership.retired + count <= core.ownership.ceiling(),
    ensures
        core.charged_by(count).ownership.charged == core.ownership.charged + count,
        core.charged_by(count) == (CoreView {
            ownership: core.charged_by(count).ownership,
            ..core
        }),
        core.ownership.capacity matches Some(capacity) ==> core.capacity_error() == (
        DropAdmissionError::Capacity { limit: capacity }),
{
}

/// The workers start in order: subscriber callbacks first, the relay exactly where somebody
/// listens, the registry after both, and the controller last. A started supervisor starts nothing,
/// and outside a runtime nothing starts.
pub proof fn law_workers_start_in_order(
    core: CoreView,
    runtime_active: bool,
    startup: Result<Startup, RuntimeError>,
)
    requires
        start_plan(core, runtime_active, startup),
    ensures
        startup == Ok::<Startup, RuntimeError>(Startup::Running) <==> core.started,
        startup is Err <==> !core.started && !runtime_active,
        startup is Err ==> startup->Err_0@ is TokioRuntimeUnavailable,
        startup matches Ok(Startup::Launch(list)) ==> {
            &&& list@[0] == Worker::Subscribers
            &&& list@.last() == Worker::Controller
            &&& list@[list@.len() - 2] == Worker::Registry
            &&& list@.contains(Worker::Relay) <==> core.subscriber_slots > 0
            &&& list@.len() == (if core.subscriber_slots > 0 {
                4int
            } else {
                3int
            })
        },
{
    if startup is Ok && !(startup->Ok_0 is Running) {
        let list = workers(core.subscriber_slots > 0);
        if core.subscriber_slots > 0 {
            assert(list[1] == Worker::Relay);
        } else {
            assert forall|i: int| 0 <= i < list.len() implies list[i] != Worker::Relay by {}
        }
    }
}

/// A static run is refused beforehand exactly when the lifecycle is taken, when it has more tasks
/// than may be registered, or when it cannot ever fit beside the subscribers, and is told which, in
/// this order. A run without tasks needs no room.
pub proof fn law_a_run_is_refused_only_for_cause(core: CoreView, tasks: nat)
    ensures
        core.run_refusal(tasks) == Some(RuntimeErrorView::AlreadyRunning) <==> core.running,
        ({
            let limit = limit_view(core.settings.runtime@.max_registered_tasks);
            let crowded = limit is Some && tasks > limit->0;
            let oversized = core.ownership.capacity is Some && tasks > 0 && tasks
                + core.subscriber_slots > core.ownership.capacity->0;
            &&& core.run_refusal(tasks) is None <==> !core.running && !crowded && !oversized
            &&& !core.running && crowded ==> core.run_refusal(tasks) == Some(
                RuntimeErrorView::ResourceLimitReached {
                    resource: "registered_tasks"@,
                    limit: limit->0,
                },
            )
            &&& !core.running && !crowded && oversized ==> core.run_refusal(tasks) == Some(
                RuntimeErrorView::ResourceLimitReached {
                    resource: "owned_user_lifetimes"@,
                    limit: core.ownership.capacity->0,
                },
            )
        }),
{
}

/// A reserved batch is charged as a whole or not at all, and only a charged one keeps the
/// lifecycle. Where shutdown closed admission meanwhile, the run joins it.
pub proof fn law_a_batch_is_reserved_whole_or_released(
    before: CoreView,
    claim: StaticRunClaim,
    tasks: usize,
    runtime_active: bool,
    started: Result<(), std::io::Error>,
    capacity: usize,
    after: CoreView,
    next: Result<RunStep, RuntimeError>,
)
    requires
        before.running,
        before.ownership.capacity == Some(capacity),
        before.ownership.charged + before.ownership.retired <= capacity,
        batch_reserved(before, claim, tasks, runtime_active, started, after, next),
    ensures
        next is Ok <==> runtime_active && started is Ok && before.ownership.charged
            + before.ownership.retired + tasks <= capacity,
        next is Err ==> !after.running && after.ownership == before.ownership,
        next is Ok ==> {
            &&& after.running
            &&& after.ownership.charged == before.ownership.charged + tasks
            &&& after.ownership.retired == before.ownership.retired
            &&& next->Ok_0 is JoinStarted <==> before.shutting_down
            &&& !before.shutting_down ==> next->Ok_0 == RunStep::StartBatch(claim)
        },
        after == (CoreView { running: after.running, ownership: after.ownership, ..before }),
        !runtime_active ==> next is Err && next->Err_0@ is TokioRuntimeUnavailable,
{
}

/// The cached result of a drain is the result of the drain: success only for success, and the stuck
/// tasks as they were named.
pub proof fn law_a_drain_is_cached_as_it_ended(
    result: Result<(), RuntimeErrorView>,
    grace: Duration,
    stuck: Seq<Seq<char>>,
)
    ensures
        drain_outcome(result) is Completed <==> result is Ok,
        drain_outcome(result) == (ShutdownOutcomeView::GraceExceeded { grace, stuck }) <==> result
            == Err::<(), _>(RuntimeErrorView::GraceExceeded { grace, stuck }),
        drain_outcome(result) is ShuttingDown <==> result is Err && !(result->Err_0
            is GraceExceeded),
        !(drain_outcome(result) is SignalSetupFailed),
{
}

/// A cached outcome is read as it is.
pub proof fn law_a_shutdown_outcome_is_read_as_it_is(outcome: ShutdownOutcome)
    ensures
        match outcome {
            ShutdownOutcome::Completed => outcome@ is Completed,
            ShutdownOutcome::GraceExceeded { grace, stuck } => outcome@ matches
                ShutdownOutcomeView::GraceExceeded { grace: told, stuck: names } && told == grace
                && names.len() == stuck@.len() && forall|i: int|
                0 <= i < names.len() ==> #[trigger] names[i] == stuck@[i]@,
            ShutdownOutcome::SignalSetupFailed { source } => outcome@ == (
            ShutdownOutcomeView::SignalSetupFailed { source }),
            ShutdownOutcome::ShuttingDown => outcome@ is ShuttingDown,
        },
{
}

/// The cleanup tail goes through every phase once, in order, and ends: controller, cancellation of
/// the runtime, registry, relay, subscribers. A panic is told under the name of its phase.
pub proof fn law_cleanup_goes_through_every_phase(panic: String)
    ensures
        CleanupPhase::Controller.next() == CleanupPhase::CancelRuntime,
        CleanupPhase::CancelRuntime.next() == CleanupPhase::Registry,
        CleanupPhase::Registry.next() == CleanupPhase::Relay,
        CleanupPhase::Relay.next() == CleanupPhase::Subscribers,
        CleanupPhase::Subscribers.next() == CleanupPhase::Done,
        CleanupPhase::Done.next() == CleanupPhase::Done,
        phase_events(CleanupPhase::Registry, PhaseResult::Clean).len() == 0,
        phase_events(CleanupPhase::Registry, PhaseResult::Unclean).len() == 0,
        forall|phase: CleanupPhase|
            {
                let events = #[trigger] phase_events(phase, PhaseResult::Panicked(panic));
                &&& events.len() == 1
                &&& events[0].kind == EventKind::RuntimeFailure
                &&& events[0].task == Some("shutdown_owner"@)
                &&& events[0].reason == Some(phase.title() + " panic: "@ + panic@)
            },
        CleanupPhase::Controller.title() == "controller cleanup"@,
        CleanupPhase::Registry.title() == "registry cleanup"@,
        CleanupPhase::Relay.title() == "subscriber listener cleanup"@,
        CleanupPhase::Subscribers.title() == "subscriber worker cleanup"@,
{
}

/// The relay tells how many events were lost, in number and in words.
pub proof fn law_an_overflow_tells_its_number(dropped: u64)
    ensures
        overflow_event(dropped).kind == EventKind::SubscriberOverflow,
        overflow_event(dropped).task == Some("subscriber_listener"@),
        overflow_event(dropped).dropped == Some(dropped),
        overflow_event(dropped).reason == Some("lagged("@ + decimal(dropped as nat) + ")"@),
{
}

/// The bounded tail forwards as many events as there are, as the bus retains, and as the drain
/// limit allows, whichever is fewest, and counts every other one: those in gaps before them, those
/// skipped while closing, and those left behind.
pub proof fn law_the_tail_forwards_as_much_as_it_may(
    messages: Seq<BusMessage>,
    retained_capacity: usize,
    skipped: u64,
)
    ensures
        ({
            let n = forwarded(messages, retained_capacity);
            &&& 0 <= n <= messages.len()
            &&& n <= retained_capacity
            &&& n <= 1024
            &&& n == messages.len() || n == retained_capacity || n == 1024
            &&& lost(messages, retained_capacity, skipped) == gaps(messages, n) + skipped + (
            messages.len() - n)
            &&& SHUTDOWN_RELAY_DRAIN_LIMIT == 1024
        }),
        gaps(messages, 0) == 0,
        messages.len() > 0 ==> gaps(messages, 1) == (match messages[0] {
            BusMessage::Event(_) => 0,
            BusMessage::Lagged { dropped, .. } => dropped as nat,
        }),
        saturated(skipped as nat) == skipped,
        saturated(u64::MAX as nat + 1) == u64::MAX,
{
    reveal_with_fuel(gaps, 2);
}

/// A message is read as it is: its event, and the gap before it.
pub proof fn law_a_bus_message_is_read_as_it_is(event: Event, dropped: u64)
    ensures
        BusMessage::Event(event).event() == event@,
        BusMessage::Event(event).gap() == 0,
        (BusMessage::Lagged { dropped, event }).event() == event@,
        (BusMessage::Lagged { dropped, event }).gap() == dropped,
{
}

/// The bus hands out events in the order they were published: what is taken is the oldest, with the
/// number lost before it exactly where some were, and the rest follows. An open bus takes every
/// event, a closed one none.
pub proof fn law_the_bus_keeps_its_order(bus: BusView, event: Event)
    requires
        bus.valid(),
    ensures
        bus.closed ==> bus.published(event) == bus,
        !bus.closed && bus.events.len() < bus.capacity ==> {
            &&& bus.published(event).events == bus.events.push(event)
            &&& bus.published(event).skipped == bus.skipped
        },
        !bus.closed && bus.events.len() == bus.capacity ==> bus.published(event).events
            == bus.events.subrange(1, bus.events.len() as int).push(event),
        bus.events.len() > 0 && bus.skipped == 0 ==> bus.next() == BusMessage::Event(bus.events[0]),
        bus.events.len() > 0 && bus.skipped > 0 ==> bus.next() == (BusMessage::Lagged {
            dropped: bus.skipped,
            event: bus.events[0],
        }),
        bus.events.len() > 0 ==> bus.taken().events == bus.events.subrange(
            1,
            bus.events.len() as int,
        ) && bus.taken().skipped == 0,
        bus.taken().closed == bus.closed,
        bus.taken().capacity == bus.capacity,
        bus.messages().len() == bus.events.len(),
        bus.events.len() > 0 ==> bus.messages()[0] == bus.next(),
        forall|i: int|
            0 < i < bus.events.len() ==> #[trigger] bus.messages()[i] == BusMessage::Event(
                bus.events[i],
            ),
{
    if bus.events.len() > 0 {
        assert(bus.events.skip(1) =~= bus.events.subrange(1, bus.events.len() as int));
    }
}

/// A supervisor can be built exactly when its budget is unlimited or has a slot for every
/// subscriber; it starts with nothing running and with those slots in use.
pub proof fn law_a_built_supervisor_is_stopped(builder: SupervisorBuilder)
    ensures
        ({
            let limit = limit_view(builder.config@.ownership_capacity);
            let built = stopped(builder);
            &&& fits_budget(builder.config, builder.subscribers@.len()) <==> (limit is None
                || builder.subscribers@.len() <= limit->0)
            &&& !built.started && !built.running && !built.shutting_down
            &&& !built.shutdown.started && !built.shutdown.installed && built.shutdown.outcome is None
            &&& built.settings.runtime == builder.config
            &&& built.settings.task_defaults == builder.task_defaults
            &&& built.ownership.capacity == limit
            &&& built.ownership.retired == 0
            &&& builder.subscribers@.len() <= usize::MAX ==> built.ownership.charged
                == builder.subscribers@.len() && built.subscriber_slots
                == builder.subscribers@.len()
        }),
{
}

/// What every state of the runtime keeps: shutdown that has started has closed admission, an
/// operation that is installed has started it, and a result comes only from an operation.
pub proof fn law_shutdown_closes_admission(core: CoreView)
    requires
        core.valid(),
    ensures
        core.shutdown.started ==> core.shutting_down,
        core.shutdown.installed ==> core.shutdown.started && core.shutting_down,
        core.shutdown.outcome is Some ==> core.shutdown.installed,
{
}

/// A caller learns the registry's decision and nothing else; a decision that got lost means
/// shutdown. A cancelled task counts as stopped by this call only where this call claimed it, a
/// missing one needs no wait, and a deadline counts only while the removal is not complete.
pub proof fn law_callers_learn_the_decision(
    id: TaskId,
    added: Option<AddReply>,
    told_added: Result<TaskId, RuntimeError>,
    batch: Result<(), RuntimeError>,
    removed: Option<RemoveReply>,
    told_removed: RemoveReply,
    canceled: Option<CancelReply>,
    told_canceled: CancelReply,
)
    requires
        call_ensures(await_add_reply, (id, added), told_added),
        call_ensures(await_add_batch_reply, (added,), batch),
        call_ensures(await_remove_reply, (removed,), told_removed),
        call_ensures(await_cancel_reply, (canceled,), told_canceled),
    ensures
        told_added is Ok <==> added is Some && added->0 is Ok,
        told_added is Ok ==> told_added->Ok_0 == id,
        batch is Ok <==> added is Some && added->0 is Ok,
        added is Some && added->0 is Err ==> told_added == Err::<TaskId, _>(added->0->Err_0)
            && batch->Err_0@ == added->0->Err_0@,
        added is None ==> told_added->Err_0@ is ShuttingDown && batch->Err_0@ is ShuttingDown,
        removed is Some && removed->0 is Ok ==> told_removed is Ok && told_removed->Ok_0
            == removed->0->Ok_0,
        removed is Some && removed->0 is Err ==> told_removed is Err && told_removed->Err_0@
            == removed->0->Err_0@,
        removed is None ==> told_removed is Err && told_removed->Err_0@ is ShuttingDown,
        canceled is Some && canceled->0 is Ok ==> told_canceled is Ok && told_canceled->Ok_0
            == canceled->0->Ok_0,
        canceled is None ==> told_canceled is Err && told_canceled->Err_0@ is ShuttingDown,
{
}

/// The result of a cancellation: `false` without a wait for a missing task, else whether this call
/// made the claim, and a timeout exactly where the bound ran out before the removal was complete.
pub proof fn law_a_cancellation_reports_its_claim(
    decision: CancelDecision,
    timeout: Duration,
    complete: bool,
    missing: Result<bool, RuntimeError>,
    completed: Result<bool, RuntimeError>,
    expired: Result<bool, RuntimeError>,
)
    requires
        call_ensures(wait_cancel_decision, (None, CancelWait::Completed), missing),
        call_ensures(wait_cancel_decision, (Some(decision), CancelWait::Completed), completed),
        call_ensures(
            wait_cancel_decision,
            (Some(decision), CancelWait::Expired { timeout, complete }),
            expired,
        ),
    ensures
        missing == Ok::<bool, RuntimeError>(false),
        completed == Ok::<bool, RuntimeError>(decision.claimed),
        complete ==> expired == Ok::<bool, RuntimeError>(decision.claimed),
        !complete ==> expired is Err && expired->Err_0@ == (
        RuntimeErrorView::TaskTerminationTimeout { id: decision.id, timeout }),
{
}

/// A wait for capacity ends for exactly one reason: shutdown or a closed queue first, then the
/// answer itself, and the deadline only while there is none. While none of them holds it goes on.
pub proof fn law_a_wait_for_capacity_ends_for_one_reason<R>(
    shutdown_started: bool,
    queue_closed: bool,
    reservation: Option<Result<R, DropAdmissionError>>,
    expired: Option<Duration>,
    turn: Option<Result<R, RuntimeError>>,
)
    requires
        call_ensures(
            wait_for_ownership::<R>,
            (shutdown_started, queue_closed, reservation, expired),
            turn,
        ),
    ensures
        turn is None <==> !shutdown_started && !queue_closed && reservation is None && expired is None,
        shutdown_started || queue_closed ==> turn->0 is Err && turn->0->Err_0@ is ShuttingDown,
        !shutdown_started && !queue_closed && reservation is Some ==> (turn->0 is Ok
            <==> reservation->0 is Ok) && (reservation->0 is Ok ==> turn->0->Ok_0
            == reservation->0->Ok_0),
        !shutdown_started && !queue_closed && reservation is None && expired is Some ==> turn->0
            is Err && turn->0->Err_0@ == (RuntimeErrorView::OwnershipAdmissionTimeout {
            timeout: expired->0,
        }),
{
}

/// A static run goes on with the first reason to change course: a started shutdown over the
/// caller's trigger, the trigger over the batch. Whatever ends a running batch, the run ends in
/// shutdown, with the caller's trigger where there is one, and naturally where the registry is
/// empty.
pub proof fn law_a_run_follows_the_first_reason(
    claim: StaticRunClaim,
    started: bool,
    triggered: bool,
    polled: RunStep,
    waiting: Option<RunStep>,
    trigger: ShutdownTrigger,
    by_shutdown: (RunStep, Option<ShutdownTrigger>),
    by_trigger: (RunStep, Option<ShutdownTrigger>),
    by_empty: (RunStep, Option<ShutdownTrigger>),
)
    requires
        call_ensures(SupervisorCore::polled, (claim, started, triggered), polled),
        call_ensures(SupervisorCore::batch_wait, (started, triggered), waiting),
        call_ensures(SupervisorCore::drive_shutdown, (RunWake::ShutdownStarted,), by_shutdown),
        call_ensures(SupervisorCore::drive_shutdown, (RunWake::Triggered(trigger),), by_trigger),
        call_ensures(SupervisorCore::drive_shutdown, (RunWake::RegistryEmpty,), by_empty),
    ensures
        started ==> polled == RunStep::JoinStartedThenRelease(claim),
        !started && triggered ==> polled == RunStep::StartForTrigger(claim),
        !started && !triggered ==> polled == RunStep::Reserve(claim),
        started ==> waiting == Some(RunStep::JoinStarted),
        !started && triggered ==> waiting == Some(RunStep::JoinTrigger),
        !started && !triggered ==> waiting is None,
        by_shutdown == (RunStep::JoinStarted, None::<ShutdownTrigger>),
        by_trigger == (RunStep::JoinTrigger, Some(trigger)),
        by_empty == (RunStep::JoinTrigger, Some(ShutdownTrigger::Natural)),
{
}

/// Shutdown drains for every trigger but a failed signal setup, which keeps its source; a panic or
/// an unclean tail makes any result unclean, and a clean one keeps it. Only a panic is reported.
pub proof fn law_shutdown_ends_as_its_branch_did(
    source: Arc<std::io::Error>,
    requested: Resolution,
    natural: Resolution,
    failed: Resolution,
    resolved: Result<ShutdownOutcome, String>,
    branch: (ShutdownOutcome, Option<Event>),
    owner: (ShutdownOutcome, Option<Event>),
    tail_clean: bool,
    performed: ShutdownOutcome,
)
    requires
        call_ensures(resolve_shutdown, (ShutdownTrigger::Requested,), requested),
        call_ensures(resolve_shutdown, (ShutdownTrigger::Natural,), natural),
        call_ensures(resolve_shutdown, (ShutdownTrigger::SignalSetupFailed(source),), failed),
        call_ensures(branch_outcome, (resolved,), branch),
        call_ensures(owner_outcome, (resolved,), owner),
        call_ensures(perform_shutdown, (branch.0, tail_clean), performed),
    ensures
        requested is Drain && natural is Drain,
        failed == Resolution::FenceOnly(ShutdownOutcome::SignalSetupFailed { source }),
        resolved is Ok ==> branch.0@ == resolved->Ok_0@ && branch.1 is None && owner.0@
            == resolved->Ok_0@ && owner.1 is None,
        resolved is Err ==> branch.0@ is ShuttingDown && owner.0@ is ShuttingDown && branch.1
            is Some && owner.1 is Some && branch.1->0@.reason == Some(
            "drain"@ + " panic: "@ + resolved->Err_0@,
        ) && owner.1->0@.reason == Some("owner"@ + " panic: "@ + resolved->Err_0@),
        tail_clean ==> performed@ == branch.0@,
        !tail_clean ==> performed@ is ShuttingDown,
{
}

/// A drain succeeds exactly when the fence held and nothing is stuck; else every stuck name is
/// told, the aborted before the pending, with the grace that ran out, and exactly one event says
/// which.
pub proof fn law_a_drain_names_everything_stuck(
    fence: Result<(), RuntimeError>,
    grace: Duration,
    forced: Vec<String>,
    pending: Vec<String>,
    drained: Drained,
)
    requires
        call_ensures(drain_with_grace, (fence, grace, forced, pending), drained),
    ensures
        drained.result is Ok <==> fence is Ok && forced@.len() == 0 && pending@.len() == 0,
        fence is Err ==> drained.event is None && drained.result == fence,
        fence is Ok && drained.result is Ok ==> drained.event is Some && drained.event->0@.kind
            == EventKind::AllStoppedWithinGrace,
        fence is Ok && drained.result is Err ==> {
            &&& drained.event is Some && drained.event->0@.kind == EventKind::GraceExceeded
            &&& drained.result->Err_0@ matches RuntimeErrorView::GraceExceeded {
                grace: told,
                stuck,
            } && told == grace && stuck.len() == forced@.len() + pending@.len() && (forall|i: int|
                0 <= i < forced@.len() ==> #[trigger] stuck[i] == forced@[i]@) && (forall|i: int|
                0 <= i < pending@.len() ==> #[trigger] stuck[forced@.len() + i] == pending@[i]@)
        },
{
    if fence is Ok && !(forced@.len() + pending@.len() == 0) {
        let stuck = drained.result->Err_0@->GraceExceeded_stuck;
        assert forall|i: int| 0 <= i < forced@.len() implies #[trigger] stuck[i] == forced@[i]@ by {
            assert((forced@ + pending@)[i] == forced@[i]);
        }
        assert forall|i: int| 0 <= i < pending@.len() implies #[trigger] stuck[forced@.len() + i]
            == pending@[i]@ by {
            assert((forced@ + pending@)[forced@.len() + i] == pending@[i]);
        }
    }
}

/// Subscribers see every event of the bus, and after a gap how much is missing.
pub proof fn law_subscribers_see_events_before_gaps(
    event: Event,
    dropped: u64,
    plain: Vec<Event>,
    lagged: Vec<Event>,
)
    requires
        call_ensures(relay_message, (BusMessage::Event(event),), plain),
        call_ensures(relay_message, (BusMessage::Lagged { dropped, event },), lagged),
    ensures
        plain@.len() == 1 && plain@[0]@ == event@,
        lagged@.len() == 2 && lagged@[0]@ == event@ && lagged@[1]@.kind
            == EventKind::SubscriberOverflow && lagged@[1]@.dropped == Some(dropped),
{
    assert(event_views(plain@).len() == 1);
    assert(event_views(plain@)[0] == plain@[0]@);
    assert(event_views(lagged@).len() == 2);
    assert(event_views(lagged@)[0] == lagged@[0]@);
    assert(event_views(lagged@)[1] == lagged@[1]@);
}

/// The bounded tail shows the oldest retained events in order, then at most one diagnostic, exactly
/// where something was lost.
pub proof fn law_the_tail_shows_the_oldest_events(
    messages: Vec<BusMessage>,
    retained_capacity: usize,
    skipped: u64,
    events: Vec<Event>,
    i: int,
)
    requires
        call_ensures(drain_pending, (messages, retained_capacity, skipped), events),
    ensures
        ({
            let n = forwarded(messages@, retained_capacity);
            let missing = lost(messages@, retained_capacity, skipped) > 0;
            &&& events@.len() == n + (if missing {
                1int
            } else {
                0int
            })
            &&& 0 <= i < n ==> events@[i]@ == (match messages@[i] {
                BusMessage::Event(event) => event@,
                BusMessage::Lagged { event, .. } => event@,
            })
            &&& missing ==> events@[n]@.kind == EventKind::SubscriberOverflow
            &&& missing && lost(messages@, retained_capacity, skipped) <= u64::MAX
                ==> events@[n]@.dropped == Some(lost(messages@, retained_capacity, skipped) as u64)
        }),
{
    let n = forwarded(messages@, retained_capacity);
    let views = event_views(events@);
    assert(views.len() == events@.len());
    if 0 <= i < n {
        assert(views[i] == events@[i]@);
    }
    if lost(messages@, retained_capacity, skipped) > 0 {
        assert(views[n] == events@[n]@);
    }
}

/// Gaps add up message by message, and a count is told as it is while it fits.
pub proof fn law_gaps_add_up(messages: Seq<BusMessage>, n: int, count: nat)
    requires
        0 <= n < messages.len(),
    ensures
        gaps(messages, n + 1) == gaps(messages, n) + (match messages[n] {
            BusMessage::Event(_) => 0,
            BusMessage::Lagged { dropped, .. } => dropped as nat,
        }),
        count <= u64::MAX ==> saturated(count) == count,
        count > u64::MAX ==> saturated(count) == u64::MAX,
{
}

} // verus!
