//! The registry's ordered command and completion loop.
//!
//! Management commands, actor completion, and control use separate channels. Completion cleanup
//! gets bounded bursts; then command and control input has an explicit turn. Runtime cancellation
//! closes intake, drains buffered commands to direct decisions, claims remaining registered
//! actors, and waits for removal owners.

use vstd::prelude::*;
use vstd::string::*;

use super::actor::ScheduledActor;
use super::admission::{acceptance_effects, chosen_latch, prepared_pair, refusal_effects};
use super::batch::{batch_decision, fresh_batch};
use super::commands::{cancel_requested, cancel_requested_by_name, remove_requested};
use super::effects::{effect_views, Effect, EffectView};
use super::protocol::{AddBatchItem, RegistryCommand};
use super::state::Entry;
use super::{Registry, RegistryView};
use crate::events::{failure_event, Event, EventKind};

verus! {

/// Completions handled in a row before management and control input has an explicit turn.
pub const COMPLETION_BURST_LIMIT: usize = 64;

/// Whose turn it is.
#[derive(Clone, Copy, Debug, PartialEq, Eq, Structural)]
pub enum Turn {
    /// The runtime is cancelled: leave the loop.
    Stop,
    /// Take a waiting control message.
    Control,
    /// Take a waiting command.
    Command,
    /// Wait for whatever comes first.
    Select,
}

/// What a wait for input gave.
#[derive(Clone, Copy, Debug, PartialEq, Eq, Structural)]
pub enum Input {
    /// The runtime was cancelled.
    Cancelled,
    /// An actor completed.
    Completion,
    /// A control message arrived.
    Control,
    /// A command arrived.
    Command,
    /// A channel is closed.
    ChannelClosed,
}

/// Whose turn it is after a number of completions in a row.
pub open spec fn turn_for(
    burst: usize,
    cancelled: bool,
    control_waits: bool,
    command_waits: bool,
) -> Turn {
    if cancelled {
        Turn::Stop
    } else if burst < COMPLETION_BURST_LIMIT {
        Turn::Select
    } else if control_waits {
        Turn::Control
    } else if command_waits {
        Turn::Command
    } else {
        Turn::Select
    }
}

/// Completions in a row once more input was handled.
pub open spec fn burst_with(burst: usize, input: Input) -> usize {
    match input {
        Input::Completion => (burst + 1) as usize,
        Input::Control => 0,
        Input::Command => 0,
        _ => burst,
    }
}

/// Completions in a row after `n` more of them.
pub open spec fn burst_after(burst: usize, n: nat) -> usize
    decreases n,
{
    if n == 0 {
        burst
    } else {
        burst_with(burst_after(burst, (n - 1) as nat), Input::Completion)
    }
}

/// Completions count up one by one.
proof fn lemma_burst_after(burst: usize, n: nat)
    requires
        burst + n <= COMPLETION_BURST_LIMIT,
    ensures
        burst_after(burst, n) == burst + n,
    decreases n,
{
    if n > 0 {
        lemma_burst_after(burst, (n - 1) as nat);
    }
}

/// A flood of completions starves nobody: however many were handled so far, after at most a full
/// burst of them a waiting control message has its turn, and without one a waiting command.
pub proof fn law_completions_starve_nobody(burst: usize)
    requires
        burst <= COMPLETION_BURST_LIMIT,
    ensures
        exists|n: nat|
            {
                &&& n <= COMPLETION_BURST_LIMIT
                &&& turn_for(#[trigger] burst_after(burst, n), false, true, true) == Turn::Control
                &&& turn_for(burst_after(burst, n), false, true, false) == Turn::Control
                &&& turn_for(burst_after(burst, n), false, false, true) == Turn::Command
            },
{
    let n = (COMPLETION_BURST_LIMIT - burst) as nat;
    lemma_burst_after(burst, n);
}

/// Fairness of the listener loop.
#[derive(Debug)]
pub struct ListenerTurns {
    completion_burst: usize,
}

impl ListenerTurns {
    /// Completions handled since the last explicit turn.
    pub closed spec fn burst(self) -> usize {
        self.completion_burst
    }

    /// The burst never exceeds its limit.
    #[verifier::type_invariant]
    spec fn bounded(self) -> bool {
        self.completion_burst <= COMPLETION_BURST_LIMIT
    }

    /// Loop before its first turn.
    pub fn new() -> (turns: ListenerTurns)
        ensures
            turns.burst() == 0,
    {
        ListenerTurns { completion_burst: 0 }
    }

    /// Begins a turn.
    ///
    /// After a full burst a waiting control message goes first, then a waiting command; with
    /// neither waiting a new burst begins.
    pub fn begin(&mut self, cancelled: bool, control_waits: bool, command_waits: bool) -> (turn:
        Turn)
        ensures
            turn == turn_for(old(self).burst(), cancelled, control_waits, command_waits),
            final(self).burst() == (if cancelled || old(self).burst() < COMPLETION_BURST_LIMIT {
                old(self).burst()
            } else {
                0
            }),
            !cancelled ==> final(self).burst() < COMPLETION_BURST_LIMIT,
    {
        proof {
            use_type_invariant(&*self);
        }
        if cancelled {
            return Turn::Stop;
        }
        if self.completion_burst >= COMPLETION_BURST_LIMIT {
            self.completion_burst = 0;
            if control_waits {
                return Turn::Control;
            }
            if command_waits {
                return Turn::Command;
            }
        }
        Turn::Select
    }

    /// Whether the next turn belongs to a waiting control message or command.
    pub fn owes_turn(&self) -> (owes: bool)
        ensures
            owes == (self.burst() >= COMPLETION_BURST_LIMIT),
    {
        self.completion_burst >= COMPLETION_BURST_LIMIT
    }

    /// Counts what a wait gave. Returns whether the loop goes on.
    ///
    /// A completion extends the burst; a control message or a command ends it.
    pub fn note(&mut self, input: Input) -> (goes_on: bool)
        requires
            old(self).burst() < COMPLETION_BURST_LIMIT,
        ensures
            goes_on == !(input is Cancelled || input is ChannelClosed),
            final(self).burst() == burst_with(old(self).burst(), input),
    {
        match input {
            Input::Completion => {
                self.completion_burst = self.completion_burst.saturating_add(1);
                true
            },
            Input::Control => {
                self.completion_burst = 0;
                true
            },
            Input::Command => {
                self.completion_burst = 0;
                true
            },
            Input::Cancelled => false,
            Input::ChannelClosed => false,
        }
    }
}

/// Next step of a listener that left its loop.
#[derive(Clone, Copy, Debug, PartialEq, Eq, Structural)]
pub enum ExitStep {
    /// Close every intake channel.
    CloseIntake,
    /// Handle one buffered command, until none is left.
    DrainCommands,
    /// Handle one buffered control message, until none is left.
    DrainControl,
    /// Claim whatever is still registered, with no grace.
    CancelRemaining,
    /// Wait until no removal owner is left.
    AwaitOwners,
    /// Leave.
    Done,
}

/// Orders the exit of the listener: intake closes first, commands drain before control messages,
/// and both before the remaining actors are cancelled.
///
/// `more` says whether a drained channel gave a message.
pub fn exit_step(step: ExitStep, more: bool) -> (next: ExitStep)
    ensures
        next == (match step {
            ExitStep::CloseIntake => ExitStep::DrainCommands,
            ExitStep::DrainCommands => if more {
                ExitStep::DrainCommands
            } else {
                ExitStep::DrainControl
            },
            ExitStep::DrainControl => if more {
                ExitStep::DrainControl
            } else {
                ExitStep::CancelRemaining
            },
            ExitStep::CancelRemaining => ExitStep::AwaitOwners,
            ExitStep::AwaitOwners => ExitStep::Done,
            ExitStep::Done => ExitStep::Done,
        }),
{
    match step {
        ExitStep::CloseIntake => ExitStep::DrainCommands,
        ExitStep::DrainCommands => if more {
            ExitStep::DrainCommands
        } else {
            ExitStep::DrainControl
        },
        ExitStep::DrainControl => if more {
            ExitStep::DrainControl
        } else {
            ExitStep::CancelRemaining
        },
        ExitStep::CancelRemaining => ExitStep::AwaitOwners,
        ExitStep::AwaitOwners => ExitStep::Done,
        ExitStep::Done => ExitStep::Done,
    }
}

/// Next step of a shutdown fence.
#[verifier::reject_recursive_types(S)]
pub enum FenceStep<S> {
    /// Decide this command first.
    Decide(RegistryCommand<S>),
    /// Every command committed before the fence is decided: acknowledge.
    Acknowledge,
}

/// Drains the commands that were committed before a fence, then acknowledges it.
pub fn fence_step<S>(waiting: Option<RegistryCommand<S>>) -> (step: FenceStep<S>)
    ensures
        step == (match waiting {
            Some(command) => FenceStep::Decide(command),
            None => FenceStep::Acknowledge,
        }),
{
    match waiting {
        Some(command) => FenceStep::Decide(command),
        None => FenceStep::Acknowledge,
    }
}

/// Whether the identities of a command are free.
pub open spec fn fresh_command<S>(view: RegistryView<S>, command: RegistryCommand<S>) -> bool {
    match command {
        RegistryCommand::Add { id, .. } => view.is_fresh(id),
        RegistryCommand::AddBatch { items, .. } => fresh_batch(view, items@),
        _ => true,
    }
}

/// What a command does to the registry and asks of the runtime.
pub open spec fn command_decision<S>(
    before: RegistryView<S>,
    command: RegistryCommand<S>,
    after: RegistryView<S>,
    effects: Seq<EffectView<S>>,
) -> bool {
    match command {
        RegistryCommand::Add { id, name, owned, outcome, completion, fresh, reply } => {
            match before.refusal(name@) {
                Some(refusal) => {
                    &&& after == before
                    &&& effects == refusal_effects(
                        refusal,
                        id,
                        name@,
                        outcome,
                        owned.cleanup,
                        reply,
                    )
                },
                None => {
                    &&& exists|entry: Entry<S>, actor: ScheduledActor<S>|
                        {
                            &&& #[trigger] prepared_pair(
                                entry,
                                actor,
                                id,
                                name,
                                owned,
                                outcome,
                                chosen_latch(completion, fresh),
                                before.task_defaults,
                            )
                            &&& after == (RegistryView {
                                state: before.state.indexed(id, entry),
                                ..before
                            })
                            &&& effects == acceptance_effects(id, name@, actor, reply)
                        }
                },
            }
        },
        RegistryCommand::AddBatch { items, reply } => batch_decision(
            before,
            items@,
            reply,
            after,
            effects,
        ),
        RegistryCommand::Remove { id, reply } => {
            &&& after == before.claimed(id)
            &&& effects == before.remove_effects(id, reply)
        },
        RegistryCommand::RemoveByName { name, reply } => match before.state.owner_of(name@) {
            Some(id) => {
                &&& after == before.claimed(id)
                &&& effects == seq![EffectView::<S>::Publish(remove_requested(id, name@))]
                    + before.remove_effects(id, reply)
            },
            None => {
                &&& after == before
                &&& effects == seq![EffectView::<S>::ReplyRemove(reply, Ok(false))]
            },
        },
        RegistryCommand::Cancel { id, reply } => {
            &&& after == before.claimed(id)
            &&& effects == (if before.state.contains(id) {
                seq![EffectView::<S>::Publish(cancel_requested(id))]
            } else {
                seq![]
            }) + before.cancel_effects(id, reply)
        },
        RegistryCommand::CancelByName { name, reply } => match before.state.owner_of(name@) {
            Some(id) => {
                &&& after == before.claimed(id)
                &&& effects == seq![
                    EffectView::<S>::Publish(cancel_requested_by_name(id, name@)),
                ] + before.cancel_effects(id, reply)
            },
            None => {
                &&& after == before
                &&& effects == seq![EffectView::<S>::ReplyCancel(reply, Ok(None))]
            },
        },
    }
}

impl<S> Registry<S> {
    /// Whether the identities of a batch are free and differ from each other.
    pub fn is_fresh_batch(&self, items: &Vec<AddBatchItem<S>>) -> (fresh: bool)
        requires
            self@.valid(),
        ensures
            fresh == fresh_batch(self@, items@),
    {
        let mut i: usize = 0;
        while i < items.len()
            invariant
                i <= items@.len(),
                self@.valid(),
                forall|k: int| 0 <= k < i ==> self@.is_fresh((#[trigger] items@[k]).id),
                forall|k: int, l: int|
                    #![trigger items@[k], items@[l]]
                    0 <= k < l < items@.len() && k < i ==> items@[k].id != items@[l].id,
            decreases items@.len() - i,
        {
            if !self.is_fresh(items[i].id) {
                proof {
                    assert(!self@.is_fresh(items@[i as int].id));
                }
                return false;
            }
            let mut j: usize = i + 1;
            while j < items.len()
                invariant
                    i < j <= items@.len(),
                    forall|l: int| i < l < j ==> items@[i as int].id != (#[trigger] items@[l]).id,
                decreases items@.len() - j,
            {
                if items[i].id == items[j].id {
                    proof {
                        assert(items@[i as int].id == items@[j as int].id);
                    }
                    return false;
                }
                j = j + 1;
            }
            i = i + 1;
        }
        true
    }

    /// Whether the identities of a command are free.
    pub fn accepts(&self, command: &RegistryCommand<S>) -> (accepts: bool)
        requires
            self@.valid(),
        ensures
            accepts == fresh_command(self@, *command),
    {
        match command {
            RegistryCommand::Add { id, .. } => self.is_fresh(*id),
            RegistryCommand::AddBatch { items, .. } => self.is_fresh_batch(items),
            _ => true,
        }
    }

    /// Processes one management command to its direct registry decision.
    pub fn handle_command(&mut self, command: RegistryCommand<S>) -> (effects: Vec<Effect<S>>)
        requires
            old(self)@.valid(),
            fresh_command(old(self)@, command),
        ensures
            final(self)@.valid(),
            command_decision(old(self)@, command, final(self)@, effect_views(effects@)),
    {
        match command {
            RegistryCommand::Add { id, name, owned, outcome, completion, fresh, reply } => {
                self.spawn_and_register(id, name, owned, outcome, completion, fresh, reply)
            },
            RegistryCommand::AddBatch { items, reply } => {
                self.spawn_and_register_batch(items, reply)
            },
            RegistryCommand::Remove { id, reply } => { self.remove_task(id, reply) },
            RegistryCommand::RemoveByName { name, reply } => {
                self.remove_task_by_name(name, reply)
            },
            RegistryCommand::Cancel { id, reply } => { self.cancel_task(id, reply) },
            RegistryCommand::CancelByName { name, reply } => {
                self.cancel_task_by_name(name, reply)
            },
        }
    }

    /// Whether the reaper coordinator is awaited when the listener was joined.
    ///
    /// A blocked force-aborted actor cannot extend registry shutdown.
    pub fn awaits_coordinator(&self) -> (awaits: bool)
        ensures
            awaits == (self@.reaper.records.len() == 0),
    {
        self.actors.active() == 0
    }
}

/// Outcome of joining the listener and, after it, the actor runtime.
#[derive(Debug)]
pub struct ListenerJoin {
    /// Whether both joined cleanly.
    pub clean: bool,
    /// Diagnostics to publish, in order.
    pub events: Vec<Event>,
}

/// Reports how the listener and the actor runtime were joined.
///
/// `listener_error` is the text of the listener's join error, if it had one. `actors_clean` is the
/// result of joining the actor runtime afterwards.
pub fn listener_join(listener_error: Option<String>, actors_clean: bool) -> (join: ListenerJoin)
    ensures
        join.clean == (listener_error is None && actors_clean),
        join.events@.map_values(|event: Event| event@) == (match listener_error {
            Some(error) => seq![
                failure_event("registry"@, "listener join failed: "@ + error@),
            ],
            None => seq![],
        }) + (if actors_clean {
            seq![]
        } else {
            seq![failure_event("registry"@, "actor runtime join failed"@)]
        }),
{
    let mut events: Vec<Event> = Vec::new();
    let clean = listener_error.is_none() && actors_clean;
    if let Some(error) = &listener_error {
        let mut reason = "listener join failed: ".to_owned();
        reason.append(error.as_str());
        events.push(Event::runtime_failure("registry", reason.as_str()));
    }
    if !actors_clean {
        events.push(Event::runtime_failure("registry", "actor runtime join failed"));
    }
    proof {
        assert(events@.map_values(|event: Event| event@) =~= (match listener_error {
            Some(error) => seq![
                failure_event("registry"@, "listener join failed: "@ + error@),
            ],
            None => seq![],
        }) + (if actors_clean {
            seq![]
        } else {
            seq![failure_event("registry"@, "actor runtime join failed"@)]
        }));
    }
    ListenerJoin { clean, events }
}

/// Diagnostic for a panic inside one listener operation. The listener stays available.
pub fn listener_panic(message: &str) -> (event: Event)
    ensures
        event@ == failure_event("registry"@, "listener panic: "@ + message@),
{
    let mut reason = "listener panic: ".to_owned();
    reason.append(message);
    Event::runtime_failure("registry", reason.as_str())
}

/// The listener stops exactly when the runtime is cancelled, gives commands and control an explicit
/// turn exactly after a full burst, control first, and otherwise takes whatever comes first.
pub proof fn law_turns_are_given_in_order(
    burst: usize,
    control_waits: bool,
    command_waits: bool,
)
    ensures
        turn_for(burst, true, control_waits, command_waits) == Turn::Stop,
        turn_for(burst, false, control_waits, command_waits) != Turn::Stop,
        burst < 64 ==> turn_for(burst, false, control_waits, command_waits) == Turn::Select,
        burst >= 64 && control_waits ==> turn_for(burst, false, control_waits, command_waits)
            == Turn::Control,
        burst >= 64 && !control_waits && command_waits ==> turn_for(
            burst,
            false,
            control_waits,
            command_waits,
        ) == Turn::Command,
        burst >= 64 && !control_waits && !command_waits ==> turn_for(
            burst,
            false,
            control_waits,
            command_waits,
        ) == Turn::Select,
{
}

/// A completion makes the burst one longer, a command or a control message ends it, and nothing
/// else counts.
pub proof fn law_only_completions_make_a_burst(burst: usize)
    requires
        burst < 64,
    ensures
        burst_with(burst, Input::Completion) == burst + 1,
        burst_with(burst, Input::Control) == 0,
        burst_with(burst, Input::Command) == 0,
        burst_with(burst, Input::Cancelled) == burst,
        burst_with(burst, Input::ChannelClosed) == burst,
{
}

/// A listener that leaves closes intake first, decides every buffered command before any buffered
/// control message, cancels what is left only after both, and waits for every owner before it ends.
pub proof fn law_the_exit_decides_everything_buffered(
    more: bool,
    closed: ExitStep,
    commands: ExitStep,
    control: ExitStep,
    canceled: ExitStep,
    awaited: ExitStep,
)
    requires
        call_ensures(exit_step, (ExitStep::CloseIntake, more), closed),
        call_ensures(exit_step, (ExitStep::DrainCommands, more), commands),
        call_ensures(exit_step, (ExitStep::DrainControl, more), control),
        call_ensures(exit_step, (ExitStep::CancelRemaining, more), canceled),
        call_ensures(exit_step, (ExitStep::AwaitOwners, more), awaited),
    ensures
        closed == ExitStep::DrainCommands,
        more ==> commands == ExitStep::DrainCommands && control == ExitStep::DrainControl,
        !more ==> commands == ExitStep::DrainControl && control == ExitStep::CancelRemaining,
        canceled == ExitStep::AwaitOwners,
        awaited == ExitStep::Done,
{
}

/// A fence is acknowledged exactly when no command waits before it.
pub proof fn law_a_fence_waits_for_every_command<S>(
    command: RegistryCommand<S>,
    waiting: FenceStep<S>,
    drained: FenceStep<S>,
)
    requires
        call_ensures(fence_step::<S>, (Some(command),), waiting),
        call_ensures(fence_step::<S>, (None,), drained),
    ensures
        waiting == FenceStep::Decide(command),
        drained is Acknowledge,
{
}

/// The listener joined cleanly exactly when neither it nor the actor runtime failed, and each
/// failure is told once.
pub proof fn law_every_join_failure_is_told(
    listener_error: Option<String>,
    actors_clean: bool,
    join: ListenerJoin,
)
    requires
        call_ensures(listener_join, (listener_error, actors_clean), join),
    ensures
        join.clean <==> listener_error is None && actors_clean,
        join.events@.len() == (if listener_error is Some {
            1int
        } else {
            0int
        }) + (if actors_clean {
            0int
        } else {
            1int
        }),
        forall|i: int|
            0 <= i < join.events@.len() ==> (#[trigger] join.events@[i])@.kind
                == EventKind::RuntimeFailure && join.events@[i]@.task == Some("registry"@),
{
    let views = join.events@.map_values(|event: Event| event@);
    assert(views.len() == join.events@.len());
    assert forall|i: int| 0 <= i < join.events@.len() implies (#[trigger] join.events@[i])@.kind
        == EventKind::RuntimeFailure && join.events@[i]@.task == Some("registry"@) by {
        assert(views[i] == join.events@[i]@);
    }
}

/// A turn follows the burst and starts a new one when it was due; what came in is counted, and only
/// cancellation or a closed channel ends the loop.
pub proof fn law_the_loop_counts_its_turns(
    turns: &mut ListenerTurns,
    cancelled: bool,
    control_waits: bool,
    command_waits: bool,
    turn: Turn,
    input: Input,
    goes_on: bool,
)
    ensures
        call_ensures(
            ListenerTurns::begin,
            (turns, cancelled, control_waits, command_waits),
            turn,
        ) ==> {
            &&& turn == Turn::Stop <==> cancelled
            &&& turn == Turn::Control ==> control_waits && old(turns).burst() >= 64
            &&& turn == Turn::Command ==> command_waits && !control_waits && old(turns).burst()
                >= 64
            &&& old(turns).burst() >= 64 && !cancelled ==> final(turns).burst() == 0
            &&& old(turns).burst() < 64 ==> final(turns).burst() == old(turns).burst()
        },
        call_ensures(ListenerTurns::note, (turns, input), goes_on) && old(turns).burst() < 64 ==> {
            &&& goes_on <==> input == Input::Completion || input == Input::Control || input
                == Input::Command
            &&& input == Input::Completion ==> final(turns).burst() == old(turns).burst() + 1
            &&& input == Input::Control || input == Input::Command ==> final(turns).burst() == 0
        },
{
}

} // verus!
