//! What a registry decision asks the runtime to do, in order.
//!
//! The registry decides and changes its state. Everything that reaches outside that state is an
//! [`Effect`]: the runtime carries out the effects of one decision in the order they are listed.

use std::time::Duration;
use tokio::sync::oneshot;
use vstd::prelude::*;

use super::actor::{AbortPlan, ScheduledActor};
use super::completion::{OutcomeTx, RemovalCompletion};
use super::protocol::{AddReply, CancelDecision, CancelReply, RemoveReply};
use super::state::Handle;
use crate::deferred_drop::DropBundle;
use crate::error::{RuntimeError, RuntimeErrorView};
use crate::events::{Event, EventView};
use crate::identity::TaskId;
use crate::outcome::{TaskOutcome, TaskOutcomeView};

verus! {

/// A claimed actor with everything needed to finish its removal.
#[verifier::reject_recursive_types(S)]
pub struct Claim<S> {
    /// Identity of the removing entry.
    pub id: TaskId,
    /// Name of the removing entry.
    pub name: String,
    /// The only actor handle.
    pub handle: Handle<S>,
    /// Latch pair of the removal.
    pub completion: RemovalCompletion,
}

/// One step that the runtime performs for the registry.
#[verifier::reject_recursive_types(S)]
pub enum Effect<S> {
    /// Publish a lifecycle event.
    Publish(Event),
    /// Answer an add command.
    ReplyAdd(oneshot::Sender<AddReply>, AddReply),
    /// Answer a remove command.
    ReplyRemove(oneshot::Sender<RemoveReply>, RemoveReply),
    /// Answer a cancel command.
    ReplyCancel(oneshot::Sender<CancelReply>, CancelReply),
    /// Deliver a refusal, or attach it to the bundle, then submit the bundle.
    Settle {
        /// Sender of the watcher, if there is one.
        done: Option<OutcomeTx<S>>,
        /// Refusal to deliver.
        outcome: TaskOutcome<S>,
        /// User values of the refused task.
        cleanup: DropBundle<S>,
    },
    /// Hand user values to a destructor worker.
    Submit(DropBundle<S>),
    /// Keep a physical output forever: nothing may destroy it.
    Retain(u64),
    /// Spawn an accepted actor behind the start gate.
    Schedule(ScheduledActor<S>),
    /// Let the actors of this decision begin.
    OpenStartGate,
    /// Cancel the token of a claimed actor.
    CancelActor(TaskId),
    /// Join a claimed actor in a detached task, aborting it after the given time.
    Join {
        /// The claimed actor.
        claim: Claim<S>,
        /// Time after which the actor is aborted.
        force_after: Option<Duration>,
    },
    /// Abort a physical actor, and reap it where the plan says so.
    Abort(AbortPlan<S>),
    /// Wake the waiters for the end of a removal.
    CompleteLogical(RemovalCompletion),
    /// Wake the waiters for physical release.
    CompletePhysical(RemovalCompletion),
    /// Wake the waiters for the last pending removal.
    JoinsDrained,
    /// Wake the waiters for an empty registry.
    RegistryEmpty,
}

/// Contents of an [`Effect`], with its texts as character sequences.
#[verifier::reject_recursive_types(S)]
pub enum EffectView<S> {
    Publish(EventView),
    ReplyAdd(oneshot::Sender<AddReply>, Result<(), RuntimeErrorView>),
    ReplyRemove(oneshot::Sender<RemoveReply>, Result<bool, RuntimeErrorView>),
    ReplyCancel(oneshot::Sender<CancelReply>, Result<Option<CancelDecision>, RuntimeErrorView>),
    Settle { done: Option<OutcomeTx<S>>, outcome: TaskOutcomeView<S>, cleanup: DropBundle<S> },
    Submit(DropBundle<S>),
    Retain(u64),
    Schedule(ScheduledActor<S>),
    OpenStartGate,
    CancelActor(TaskId),
    Join { claim: Claim<S>, force_after: Option<Duration> },
    Abort(AbortPlan<S>),
    CompleteLogical(RemovalCompletion),
    CompletePhysical(RemovalCompletion),
    JoinsDrained,
    RegistryEmpty,
}

/// A reply with the contents of its error.
pub open spec fn reply_view<V>(reply: Result<V, RuntimeError>) -> Result<V, RuntimeErrorView> {
    match reply {
        Ok(value) => Ok(value),
        Err(error) => Err(error@),
    }
}

impl<S> View for Effect<S> {
    type V = EffectView<S>;

    open spec fn view(&self) -> EffectView<S> {
        match *self {
            Effect::Publish(event) => EffectView::Publish(event@),
            Effect::ReplyAdd(sender, reply) => EffectView::ReplyAdd(sender, reply_view(reply)),
            Effect::ReplyRemove(sender, reply) => EffectView::ReplyRemove(
                sender,
                reply_view(reply),
            ),
            Effect::ReplyCancel(sender, reply) => EffectView::ReplyCancel(
                sender,
                reply_view(reply),
            ),
            Effect::Settle { done, outcome, cleanup } => EffectView::Settle {
                done,
                outcome: outcome@,
                cleanup,
            },
            Effect::Submit(bundle) => EffectView::Submit(bundle),
            Effect::Retain(output) => EffectView::Retain(output),
            Effect::Schedule(actor) => EffectView::Schedule(actor),
            Effect::OpenStartGate => EffectView::OpenStartGate,
            Effect::CancelActor(id) => EffectView::CancelActor(id),
            Effect::Join { claim, force_after } => EffectView::Join { claim, force_after },
            Effect::Abort(plan) => EffectView::Abort(plan),
            Effect::CompleteLogical(completion) => EffectView::CompleteLogical(completion),
            Effect::CompletePhysical(completion) => EffectView::CompletePhysical(completion),
            Effect::JoinsDrained => EffectView::JoinsDrained,
            Effect::RegistryEmpty => EffectView::RegistryEmpty,
        }
    }
}

/// Contents of a list of effects.
pub open spec fn effect_views<S>(effects: Seq<Effect<S>>) -> Seq<EffectView<S>> {
    effects.map_values(|effect: Effect<S>| effect@)
}

/// One more effect is one more entry of the contents.
pub broadcast proof fn lemma_effect_views_push<S>(effects: Seq<Effect<S>>, effect: Effect<S>)
    ensures
        #[trigger] effect_views(effects.push(effect)) == effect_views(effects).push(effect@),
{
    assert(effect_views(effects.push(effect)) =~= effect_views(effects).push(effect@));
}

/// An effect is read as it is: what it asks for, of whom, and with what answer.
pub proof fn law_an_effect_is_read_as_it_is<S>(effect: Effect<S>)
    ensures
        match effect {
            Effect::Publish(event) => effect@ == EffectView::<S>::Publish(event@),
            Effect::ReplyAdd(sender, Ok(())) => effect@ == EffectView::<S>::ReplyAdd(
                sender,
                Ok(()),
            ),
            Effect::ReplyAdd(sender, Err(error)) => effect@ == EffectView::<S>::ReplyAdd(
                sender,
                Err(error@),
            ),
            Effect::ReplyRemove(sender, Ok(claimed)) => effect@ == EffectView::<S>::ReplyRemove(
                sender,
                Ok(claimed),
            ),
            Effect::ReplyRemove(sender, Err(error)) => effect@ == EffectView::<S>::ReplyRemove(
                sender,
                Err(error@),
            ),
            Effect::ReplyCancel(sender, Ok(decision)) => effect@ == EffectView::<S>::ReplyCancel(
                sender,
                Ok(decision),
            ),
            Effect::ReplyCancel(sender, Err(error)) => effect@ == EffectView::<S>::ReplyCancel(
                sender,
                Err(error@),
            ),
            Effect::Settle { done, outcome, cleanup } => effect@ == (EffectView::<S>::Settle {
                done,
                outcome: outcome@,
                cleanup,
            }),
            Effect::Submit(bundle) => effect@ == EffectView::<S>::Submit(bundle),
            Effect::Retain(output) => effect@ == EffectView::<S>::Retain(output),
            Effect::Schedule(actor) => effect@ == EffectView::<S>::Schedule(actor),
            Effect::OpenStartGate => effect@ is OpenStartGate,
            Effect::CancelActor(id) => effect@ == EffectView::<S>::CancelActor(id),
            Effect::Join { claim, force_after } => effect@ == (EffectView::<S>::Join {
                claim,
                force_after,
            }),
            Effect::Abort(plan) => effect@ == EffectView::<S>::Abort(plan),
            Effect::CompleteLogical(latch) => effect@ == EffectView::<S>::CompleteLogical(latch),
            Effect::CompletePhysical(latch) => effect@ == EffectView::<S>::CompletePhysical(latch),
            Effect::JoinsDrained => effect@ is JoinsDrained,
            Effect::RegistryEmpty => effect@ is RegistryEmpty,
        },
{
}

/// A list of effects is read one by one, in its order.
pub proof fn law_effects_are_read_in_order<S>(effects: Seq<Effect<S>>, i: int)
    requires
        0 <= i < effects.len(),
    ensures
        effect_views(effects).len() == effects.len(),
        effect_views(effects)[i] == effects[i]@,
{
}

} // verus!
