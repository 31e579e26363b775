//! Remove and cancel commands.
//!
//! Identity commands inspect one entry. Name commands resolve the current identity and make the
//! claim in the same step. Remove says only whether this command won the actor handle. Cancel
//! returns the logical completion latch: a later cancel of an entry already being removed joins
//! the same completion instead of creating another join owner.

use tokio::sync::oneshot;
use vstd::prelude::*;

use super::completion::RemovalCompletion;
use super::effects::{effect_views, lemma_effect_views_push, Claim, Effect, EffectView};
use super::protocol::{CancelDecision, CancelReply, RemoveReply};
use super::state::EntryState;
use super::{Registry, RegistryView};
use crate::events::{plain_event, task_event, Event, EventKind, EventView};
use crate::identity::TaskId;
use crate::reasons::MANUAL_CANCEL;

verus! {

broadcast use lemma_effect_views_push;

impl<S> RegistryView<S> {
    /// What a removal claim of `id` wins: nothing unless it is registered.
    pub open spec fn claim(self, id: TaskId) -> Option<Claim<S>> {
        match self.state.claim(id) {
            Some((name, handle, completion)) => Some(Claim { id, name, handle, completion }),
            None => None,
        }
    }

    /// After a removal claim of `id`: a registered entry is removing and has one removal owner.
    pub open spec fn claimed(self, id: TaskId) -> RegistryView<S> {
        match self.state.claim(id) {
            Some((name, _, _)) => RegistryView {
                state: self.state.claimed(id),
                pending: self.pending.claimed(id, name),
                ..self
            },
            None => self,
        }
    }

    /// Latch pair of a claimed entry.
    pub open spec fn removal_latch(self, id: TaskId) -> RemovalCompletion {
        match self.state.entry(id).state {
            EntryState::Registered(handle) => handle.completion,
            EntryState::Removing { completion } => completion,
        }
    }

    /// Answer to a cancellation of `id`: nothing for a stranger, else the latch of the removal and
    /// whether this command started it.
    pub open spec fn cancel_decision(self, id: TaskId) -> Option<CancelDecision> {
        if self.state.contains(id) {
            Some(
                CancelDecision {
                    id,
                    claimed: self.state.is_registered(id),
                    completion: self.removal_latch(id),
                },
            )
        } else {
            None
        }
    }

    /// Effects of a remove command on a resolved identity.
    pub open spec fn remove_effects(self, id: TaskId, reply: oneshot::Sender<RemoveReply>) -> Seq<
        EffectView<S>,
    > {
        match self.claim(id) {
            Some(claim) => seq![
                EffectView::CancelActor(id),
                EffectView::ReplyRemove(reply, Ok(true)),
                EffectView::Join { claim, force_after: Some(self.grace) },
            ],
            None => seq![EffectView::ReplyRemove(reply, Ok(false))],
        }
    }

    /// Effects of a cancel command on a resolved identity.
    pub open spec fn cancel_effects(self, id: TaskId, reply: oneshot::Sender<CancelReply>) -> Seq<
        EffectView<S>,
    > {
        match self.claim(id) {
            Some(claim) => seq![
                EffectView::CancelActor(id),
                EffectView::ReplyCancel(reply, Ok(self.cancel_decision(id))),
                EffectView::Join { claim, force_after: Some(self.grace) },
            ],
            None => seq![EffectView::ReplyCancel(reply, Ok(self.cancel_decision(id)))],
        }
    }
}

/// Request event of a remove command by name.
pub open spec fn remove_requested(id: TaskId, name: Seq<char>) -> EventView {
    task_event(EventKind::TaskRemoveRequested, id, name)
}

/// Request event of a cancel command by identity.
pub open spec fn cancel_requested(id: TaskId) -> EventView {
    EventView {
        id: Some(id),
        reason: Some(MANUAL_CANCEL@),
        ..plain_event(EventKind::TaskRemoveRequested)
    }
}

/// Request event of a cancel command by name.
pub open spec fn cancel_requested_by_name(id: TaskId, name: Seq<char>) -> EventView {
    EventView { task: Some(name), ..cancel_requested(id) }
}

/// Registry work selected by one cancel command.
#[verifier::reject_recursive_types(S)]
pub struct CancelAction<S> {
    /// Decision returned to the command caller.
    pub decision: CancelDecision,
    /// Claimed actor when this command won the removal.
    pub claim: Option<Claim<S>>,
}

/// A claim keeps what the registry promises of its states.
pub(crate) proof fn lemma_claimed_valid<S>(view: RegistryView<S>, id: TaskId)
    requires
        view.valid(),
        view.state.claimed(id).in_sync(),
    ensures
        view.claimed(id).valid(),
        view.claimed(id).state.tasks.dom() == view.state.tasks.dom(),
        view.state.is_registered(id) ==> view.pending.owners(id) == 0,
{
    let next = view.claimed(id);
    if view.state.claim(id) is Some {
        assert(view.state.is_registered(id));
        assert forall|other: TaskId| #[trigger] next.state.is_removing(other) implies {
            &&& next.pending.owners(other) == 1
            &&& next.pending.names.contains_key(other.raw)
            &&& next.pending.names[other.raw] == next.state.entry(other).name
        } by {
            if other.raw != id.raw {
                assert(view.state.is_removing(other));
            }
        }
        assert forall|other: TaskId| #[trigger] next.state.is_registered(other) implies
            next.pending.owners(other) == 0 by {
            assert(other.raw != id.raw);
            assert(view.state.is_registered(other));
        }
    }
    assert(next.state.tasks.dom() =~= view.state.tasks.dom());
}

impl<S> Registry<S> {
    /// Changes one task from registered to removing.
    ///
    /// The winning caller receives the only actor handle and is registered as removal owner.
    pub fn claim_task(&mut self, id: TaskId) -> (claim: Option<Claim<S>>)
        requires
            old(self)@.valid(),
        ensures
            final(self)@.valid(),
            claim == old(self)@.claim(id),
            final(self)@ == old(self)@.claimed(id),
    {
        match self.state.claim_registered(id) {
            None => None,
            Some((name, handle, completion)) => {
                proof {
                    lemma_claimed_valid(old(self)@, id);
                }
                self.pending_joins.inc_with_name(id, name.clone());
                Some(Claim { id, name, handle, completion })
            },
        }
    }

    /// Answers a remove command for a resolved identity.
    fn resolve_remove(
        &mut self,
        id: TaskId,
        reply: oneshot::Sender<RemoveReply>,
        effects: &mut Vec<Effect<S>>,
    )
        requires
            old(self)@.valid(),
        ensures
            final(self)@.valid(),
            final(self)@ == old(self)@.claimed(id),
            effect_views(final(effects)@) == effect_views(old(effects)@) + old(
                self,
            )@.remove_effects(id, reply),
    {
        match self.claim_task(id) {
            Some(claim) => {
                effects.push(Effect::CancelActor(id));
                effects.push(Effect::ReplyRemove(reply, Ok(true)));
                effects.push(Effect::Join { claim, force_after: Some(self.grace) });
            },
            None => {
                effects.push(Effect::ReplyRemove(reply, Ok(false)));
            },
        }
        proof {
            assert(effect_views(effects@) =~= effect_views(old(effects)@) + old(
                self,
            )@.remove_effects(id, reply));
        }
    }

    /// Removes a task by identity.
    ///
    /// `Ok(true)` means this command claimed the actor and triggered cancellation. Membership
    /// remains until terminal join cleanup. `Ok(false)` means the entry is unknown or already
    /// claimed.
    pub fn remove_task(&mut self, id: TaskId, reply: oneshot::Sender<RemoveReply>) -> (effects: Vec<
        Effect<S>,
    >)
        requires
            old(self)@.valid(),
        ensures
            final(self)@.valid(),
            final(self)@ == old(self)@.claimed(id),
            effect_views(effects@) == old(self)@.remove_effects(id, reply),
    {
        let mut effects: Vec<Effect<S>> = Vec::new();
        self.resolve_remove(id, reply, &mut effects);
        proof {
            assert(effect_views(effects@) =~= old(self)@.remove_effects(id, reply));
        }
        effects
    }

    /// Resolves a name and claims its current owner in one step.
    ///
    /// A missing name is answered `Ok(false)` without a request event. An entry already being
    /// removed gets another request event and is answered `Ok(false)`.
    pub fn remove_task_by_name(
        &mut self,
        name: String,
        reply: oneshot::Sender<RemoveReply>,
    ) -> (effects: Vec<Effect<S>>)
        requires
            old(self)@.valid(),
        ensures
            final(self)@.valid(),
            match old(self)@.state.owner_of(name@) {
                Some(id) => {
                    &&& final(self)@ == old(self)@.claimed(id)
                    &&& effect_views(effects@) == seq![
                        EffectView::<S>::Publish(remove_requested(id, name@)),
                    ] + old(self)@.remove_effects(id, reply)
                },
                None => {
                    &&& final(self)@ == old(self)@
                    &&& effect_views(effects@) == seq![
                        EffectView::<S>::ReplyRemove(reply, Ok(false)),
                    ]
                },
            },
    {
        let mut effects: Vec<Effect<S>> = Vec::new();
        match self.state.owner_of(name.as_str()) {
            None => {
                effects.push(Effect::ReplyRemove(reply, Ok(false)));
                proof {
                    assert(effect_views(effects@) =~= seq![
                        EffectView::<S>::ReplyRemove(reply, Ok(false)),
                    ]);
                }
            },
            Some(id) => {
                let event = Event::new(EventKind::TaskRemoveRequested).with_task(
                    name.as_str(),
                ).with_id(id);
                effects.push(Effect::Publish(event));
                self.resolve_remove(id, reply, &mut effects);
                proof {
                    assert(effect_views(effects@) =~= seq![
                        EffectView::<S>::Publish(remove_requested(id, name@)),
                    ] + old(self)@.remove_effects(id, reply));
                }
            },
        }
        effects
    }

    /// Selects one cancel action.
    fn cancel_action(&mut self, id: TaskId) -> (action: Option<CancelAction<S>>)
        requires
            old(self)@.valid(),
        ensures
            final(self)@.valid(),
            final(self)@ == old(self)@.claimed(id),
            match action {
                Some(action) => old(self)@.cancel_decision(id) == Some(action.decision)
                    && action.claim == old(self)@.claim(id),
                None => !old(self)@.state.contains(id),
            },
    {
        let existing = match self.state.get(id) {
            None => {
                return None;
            },
            Some(entry) => match &entry.state {
                EntryState::Registered(_) => None,
                EntryState::Removing { completion } => Some(*completion),
            },
        };
        match existing {
            Some(completion) => Some(
                CancelAction {
                    decision: CancelDecision { id, claimed: false, completion },
                    claim: None,
                },
            ),
            None => match self.claim_task(id) {
                Some(claim) => Some(
                    CancelAction {
                        decision: CancelDecision {
                            id,
                            claimed: true,
                            completion: claim.completion,
                        },
                        claim: Some(claim),
                    },
                ),
                None => None,
            },
        }
    }

    /// Answers a cancel command and starts the join owner when this command claimed it.
    fn resolve_cancel(
        &mut self,
        id: TaskId,
        reply: oneshot::Sender<CancelReply>,
        effects: &mut Vec<Effect<S>>,
    )
        requires
            old(self)@.valid(),
        ensures
            final(self)@.valid(),
            final(self)@ == old(self)@.claimed(id),
            effect_views(final(effects)@) == effect_views(old(effects)@) + old(
                self,
            )@.cancel_effects(id, reply),
    {
        match self.cancel_action(id) {
            None => {
                effects.push(Effect::ReplyCancel(reply, Ok(None)));
            },
            Some(action) => match action.claim {
                Some(claim) => {
                    effects.push(Effect::CancelActor(id));
                    effects.push(Effect::ReplyCancel(reply, Ok(Some(action.decision))));
                    effects.push(Effect::Join { claim, force_after: Some(self.grace) });
                },
                None => {
                    effects.push(Effect::ReplyCancel(reply, Ok(Some(action.decision))));
                },
            },
        }
        proof {
            assert(effect_views(effects@) =~= effect_views(old(effects)@) + old(
                self,
            )@.cancel_effects(id, reply));
        }
    }

    /// Claims or joins cancellation by identity and returns its decision.
    ///
    /// A stranger is answered `Ok(None)` without a request event.
    pub fn cancel_task(&mut self, id: TaskId, reply: oneshot::Sender<CancelReply>) -> (effects: Vec<
        Effect<S>,
    >)
        requires
            old(self)@.valid(),
        ensures
            final(self)@.valid(),
            final(self)@ == old(self)@.claimed(id),
            effect_views(effects@) == (if old(self)@.state.contains(id) {
                seq![EffectView::<S>::Publish(cancel_requested(id))]
            } else {
                seq![]
            }) + old(self)@.cancel_effects(id, reply),
    {
        let mut effects: Vec<Effect<S>> = Vec::new();
        if self.state.contains(id) {
            let event = Event::new(EventKind::TaskRemoveRequested).with_id(id).with_reason(
                MANUAL_CANCEL,
            );
            effects.push(Effect::Publish(event));
        }
        self.resolve_cancel(id, reply, &mut effects);
        proof {
            assert(effect_views(effects@) =~= (if old(self)@.state.contains(id) {
                seq![EffectView::<S>::Publish(cancel_requested(id))]
            } else {
                seq![]
            }) + old(self)@.cancel_effects(id, reply));
        }
        effects
    }

    /// Resolves a name and claims or joins cancellation in one step.
    pub fn cancel_task_by_name(
        &mut self,
        name: String,
        reply: oneshot::Sender<CancelReply>,
    ) -> (effects: Vec<Effect<S>>)
        requires
            old(self)@.valid(),
        ensures
            final(self)@.valid(),
            match old(self)@.state.owner_of(name@) {
                Some(id) => {
                    &&& final(self)@ == old(self)@.claimed(id)
                    &&& effect_views(effects@) == seq![
                        EffectView::<S>::Publish(cancel_requested_by_name(id, name@)),
                    ] + old(self)@.cancel_effects(id, reply)
                },
                None => {
                    &&& final(self)@ == old(self)@
                    &&& effect_views(effects@) == seq![
                        EffectView::<S>::ReplyCancel(reply, Ok(None)),
                    ]
                },
            },
    {
        let mut effects: Vec<Effect<S>> = Vec::new();
        match self.state.owner_of(name.as_str()) {
            None => {
                effects.push(Effect::ReplyCancel(reply, Ok(None)));
                proof {
                    assert(effect_views(effects@) =~= seq![
                        EffectView::<S>::ReplyCancel(reply, Ok(None)),
                    ]);
                }
            },
            Some(id) => {
                let event = Event::new(EventKind::TaskRemoveRequested).with_task(
                    name.as_str(),
                ).with_id(id).with_reason(MANUAL_CANCEL);
                effects.push(Effect::Publish(event));
                self.resolve_cancel(id, reply, &mut effects);
                proof {
                    assert(effect_views(effects@) =~= seq![
                        EffectView::<S>::Publish(cancel_requested_by_name(id, name@)),
                    ] + old(self)@.cancel_effects(id, reply));
                }
            },
        }
        effects
    }
}

} // verus!
