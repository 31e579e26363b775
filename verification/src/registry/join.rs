//! Claimed actors on their way to terminal cleanup.
//!
//! The actor handle leaves shared state before any wait. A ready natural result can finish inline.
//! Other joins run in detached reporters. Every result returns through terminal commit.
//! Shutdown claims whatever is still registered and spends one shared deadline on it.

use vstd::prelude::*;

use super::actor::{abort_plan, looked_into, AbortPlan};
use super::effects::{effect_views, lemma_effect_views_push, Claim, Effect, EffectView};
use super::pending::lists_names;
use super::reaper::{registered, ReaperView};
use super::state::Handle;
use super::terminal::{JoinCompletion, RemovalReport};
use super::{Registry, RegistryView};
use crate::identity::TaskId;
use crate::maps::lists_keys;
use crate::outcome::ActorResult;

verus! {

broadcast use lemma_effect_views_push;

/// Registry after removal claims of the first `n` identities.
pub open spec fn claimed_upto<S>(view: RegistryView<S>, ids: Seq<u64>, n: int) -> RegistryView<S>
    decreases n,
{
    if n <= 0 {
        view
    } else {
        claimed_upto(view, ids, n - 1).claimed(TaskId { raw: ids[n - 1] })
    }
}

/// Claims won by the first `n` identities.
pub open spec fn won_upto<S>(view: RegistryView<S>, ids: Seq<u64>, n: int) -> Seq<Claim<S>>
    decreases n,
{
    if n <= 0 {
        Seq::empty()
    } else {
        let won = won_upto(view, ids, n - 1);
        match claimed_upto(view, ids, n - 1).claim(TaskId { raw: ids[n - 1] }) {
            Some(claim) => won.push(claim),
            None => won,
        }
    }
}

/// Cancellation of every claimed actor, in claim order.
pub open spec fn cancellations<S>(claims: Seq<Claim<S>>) -> Seq<EffectView<S>> {
    claims.map_values(|claim: Claim<S>| EffectView::CancelActor(claim.id))
}

/// Actors claimed by shutdown.
#[verifier::reject_recursive_types(S)]
pub struct Sweep<S> {
    /// Claimed actors, to be joined one after the other until the shared deadline.
    pub claims: Vec<Claim<S>>,
    /// Cancellation of every claimed actor, before any is joined.
    pub effects: Vec<Effect<S>>,
}

/// A claimed actor whose wait has ended.
#[verifier::reject_recursive_types(S)]
pub struct ResolvedJoin<S> {
    /// Report for terminal commit.
    pub report: RemovalReport<S>,
    /// What ends the physical actor, where it has not ended.
    pub effects: Vec<Effect<S>>,
}

/// Next step of a detached join.
#[derive(Debug)]
pub enum JoinTurn<S> {
    /// The actor returned.
    Joined(ActorResult<S>),
    /// The actor is aborted.
    ForceAbort,
    /// Nothing happened yet.
    Wait,
}

/// What a completion signal leads to.
#[verifier::reject_recursive_types(S)]
pub enum CompletionAction<S> {
    /// The signal is stale or a duplicate.
    Ignore,
    /// The result is not there yet: join in a detached task.
    Detach(Effect<S>),
    /// The result is there: collect it inline.
    Collect(Claim<S>),
}

/// Whether a claim became another one by looking into its result channel.
pub open spec fn claim_looked_into<S>(before: Claim<S>, after: Claim<S>) -> bool {
    &&& looked_into(before.handle.join, after.handle.join)
    &&& after == (Claim {
        handle: Handle { join: after.handle.join, ..before.handle },
        ..before
    })
}

/// Reaper after a forced abort.
pub open spec fn reaper_after_abort<S>(
    reaper: ReaperView<S>,
    handle: Handle<S>,
    active: bool,
) -> ReaperView<S> {
    match (abort_plan(handle.join), handle.join.reservation) {
        (AbortPlan::Reap(_), Some(reservation)) => registered(reaper, reservation, active),
        _ => reaper,
    }
}

/// Effects that end a physical actor.
pub open spec fn abort_effects<S>(handle: Handle<S>) -> Seq<EffectView<S>> {
    match abort_plan(handle.join) {
        AbortPlan::Nothing => seq![],
        plan => seq![EffectView::Abort(plan)],
    }
}

/// Chooses the next step of a detached join.
///
/// A finished actor wins over shutdown, and shutdown over the deadline.
pub fn join_turn<S>(
    joined: Option<ActorResult<S>>,
    runtime_cancelled: bool,
    deadline_passed: bool,
) -> (turn: JoinTurn<S>)
    ensures
        turn == (match joined {
            Some(result) => JoinTurn::Joined(result),
            None => if runtime_cancelled || deadline_passed {
                JoinTurn::ForceAbort
            } else {
                JoinTurn::Wait
            },
        }),
{
    match joined {
        Some(result) => JoinTurn::Joined(result),
        None => if runtime_cancelled || deadline_passed {
            JoinTurn::ForceAbort
        } else {
            JoinTurn::Wait
        },
    }
}

impl<S> Registry<S> {
    /// Names of the removal owners still active when a wait for them ends.
    ///
    /// An owner finishes in the tail of its removal: membership is gone by then, and the report was
    /// attempted.
    pub fn wait_joins_within(&self) -> (names: Vec<String>)
        ensures
            lists_names(names@, self@.pending.names),
    {
        self.pending_joins.pending_names()
    }

    /// Claims and cancels all registered entries.
    ///
    /// Entries already being removed keep their owner. Every claimed actor is cancelled before any
    /// is joined.
    pub fn cancel_all_within(&mut self) -> (sweep: Sweep<S>)
        requires
            old(self)@.valid(),
        ensures
            final(self)@.valid(),
            exists|ids: Seq<u64>|
                {
                    &&& #[trigger] lists_keys(ids, old(self)@.state.tasks)
                    &&& final(self)@ == claimed_upto(old(self)@, ids, ids.len() as int)
                    &&& sweep.claims@ == won_upto(old(self)@, ids, ids.len() as int)
                },
            effect_views(sweep.effects@) == cancellations(sweep.claims@),
    {
        let ghost view = self@;
        let ids = self.state.ids();
        let mut claims: Vec<Claim<S>> = Vec::new();
        let mut effects: Vec<Effect<S>> = Vec::new();
        let mut i: usize = 0;
        proof {
            assert(effect_views(effects@) =~= cancellations(claims@));
        }
        while i < ids.len()
            invariant
                i <= ids.len(),
                self@.valid(),
                self@ == claimed_upto(view, ids@, i as int),
                claims@ == won_upto(view, ids@, i as int),
                effect_views(effects@) == cancellations(claims@),
            decreases ids.len() - i,
        {
            let id = TaskId { raw: ids[i] };
            if let Some(claim) = self.claim_task(id) {
                let ghost before = claims@;
                claims.push(claim);
                effects.push(Effect::CancelActor(id));
                proof {
                    assert(cancellations(claims@) =~= cancellations(before).push(
                        EffectView::CancelActor(id),
                    ));
                }
            }
            i = i + 1;
        }
        proof {
            assert(lists_keys(ids@, view.state.tasks));
        }
        Sweep { claims, effects }
    }

    /// Ends the wait for a claimed actor.
    ///
    /// `joined` is its result, or nothing when its time is up. An actor that has not physically
    /// ended goes to the reaper before its removal is committed; `active` says whether it is
    /// inside an attempt.
    pub fn resolve_join(
        &mut self,
        claim: Claim<S>,
        joined: Option<ActorResult<S>>,
        active: bool,
    ) -> (resolved: ResolvedJoin<S>)
        requires
            old(self)@.valid(),
        ensures
            final(self)@.valid(),
            final(self)@ == (RegistryView {
                reaper: reaper_after_abort(old(self)@.reaper, claim.handle, active),
                ..old(self)@
            }),
            resolved.report == (RemovalReport {
                id: claim.id,
                outcome: claim.handle.done,
                join: match joined {
                    Some(result) => JoinCompletion::Joined(result),
                    None => JoinCompletion::ForceAborted,
                },
                completion: claim.completion,
                cleanup: claim.handle.cleanup,
            }),
            effect_views(resolved.effects@) == abort_effects(claim.handle),
    {
        let mut effects: Vec<Effect<S>> = Vec::new();
        let mut handle = claim.handle;
        match handle.join.abort(&mut self.actors, active) {
            AbortPlan::Nothing => {},
            plan => {
                effects.push(Effect::Abort(plan));
            },
        }
        proof {
            assert(effect_views(effects@) =~= abort_effects(claim.handle));
        }
        let report = RemovalReport {
            id: claim.id,
            outcome: handle.done,
            join: match joined {
                Some(result) => JoinCompletion::Joined(result),
                None => JoinCompletion::ForceAborted,
            },
            completion: claim.completion,
            cleanup: handle.cleanup,
        };
        ResolvedJoin { report, effects }
    }

    /// Ends the wait for an actor claimed by shutdown, and lists its name when it is aborted.
    pub fn sweep_step(
        &mut self,
        claim: Claim<S>,
        joined: Option<ActorResult<S>>,
        active: bool,
        stuck: &mut Vec<String>,
    ) -> (resolved: ResolvedJoin<S>)
        requires
            old(self)@.valid(),
        ensures
            final(self)@.valid(),
            final(self)@ == (RegistryView {
                reaper: reaper_after_abort(old(self)@.reaper, claim.handle, active),
                ..old(self)@
            }),
            resolved.report == (RemovalReport {
                id: claim.id,
                outcome: claim.handle.done,
                join: match joined {
                    Some(result) => JoinCompletion::Joined(result),
                    None => JoinCompletion::ForceAborted,
                },
                completion: claim.completion,
                cleanup: claim.handle.cleanup,
            }),
            effect_views(resolved.effects@) == abort_effects(claim.handle),
            final(stuck)@ == (if joined is None {
                old(stuck)@.push(claim.name)
            } else {
                old(stuck)@
            }),
    {
        if joined.is_none() {
            stuck.push(claim.name.clone());
        }
        self.resolve_join(claim, joined, active)
    }

    /// Cleans up a finished actor by identity.
    ///
    /// Duplicate or stale completion signals are no-ops. A result that is there is collected
    /// inline; otherwise a detached join with the usual deadline is started. Whether it is there
    /// depends on the actor, unless it was received before or the channel is gone.
    pub fn cleanup_completed_task(&mut self, id: TaskId) -> (action: CompletionAction<S>)
        requires
            old(self)@.valid(),
        ensures
            final(self)@.valid(),
            final(self)@ == old(self)@.claimed(id),
            match old(self)@.claim(id) {
                None => action is Ignore,
                Some(claim) => match action {
                    CompletionAction::Ignore => false,
                    CompletionAction::Detach(effect) => {
                        &&& effect matches Effect::Join { claim: seen, force_after }
                            && claim_looked_into(claim, seen) && seen.handle.join.ready is None
                            && force_after == Some(old(self)@.grace)
                    },
                    CompletionAction::Collect(seen) => {
                        &&& claim_looked_into(claim, seen)
                        &&& seen.handle.join.ready is Some
                    },
                },
            },
    {
        match self.claim_task(id) {
            None => CompletionAction::Ignore,
            Some(claim) => {
                let mut claim = claim;
                if claim.handle.join.result_ready() {
                    CompletionAction::Collect(claim)
                } else {
                    CompletionAction::Detach(
                        Effect::Join { claim, force_after: Some(self.grace) },
                    )
                }
            },
        }
    }
}

/// What the first `n` removal claims change: the entries they name, and no other.
proof fn lemma_claimed_upto<S>(view: RegistryView<S>, ids: Seq<u64>, n: int)
    requires
        0 <= n <= ids.len(),
        ids.no_duplicates(),
        forall|i: int| 0 <= i < ids.len() ==> view.state.tasks.contains_key(#[trigger] ids[i]),
    ensures
        claimed_upto(view, ids, n).state.tasks.dom() == view.state.tasks.dom(),
        forall|i: int|
            0 <= i < n ==> claimed_upto(view, ids, n).state.is_removing(
                TaskId { raw: #[trigger] ids[i] },
            ),
        forall|i: int|
            n <= i < ids.len() ==> claimed_upto(view, ids, n).claim(
                TaskId { raw: #[trigger] ids[i] },
            ) == view.claim(TaskId { raw: ids[i] }),
    decreases n,
{
    if n > 0 {
        lemma_claimed_upto(view, ids, n - 1);
        let before = claimed_upto(view, ids, n - 1);
        let after = claimed_upto(view, ids, n);
        let id = TaskId { raw: ids[n - 1] };
        assert(before.state.contains(id)) by {
            assert(view.state.tasks.contains_key(ids[n - 1]));
        }
        assert(after.state.tasks.dom() =~= before.state.tasks.dom());
        assert forall|i: int| 0 <= i < n implies after.state.is_removing(
            TaskId { raw: #[trigger] ids[i] },
        ) by {
            if i < n - 1 {
                assert(before.state.is_removing(TaskId { raw: ids[i] }));
                assert(ids[i] != ids[n - 1]);
            }
        }
        assert forall|i: int| n <= i < ids.len() implies after.claim(
            TaskId { raw: #[trigger] ids[i] },
        ) == view.claim(TaskId { raw: ids[i] }) by {
            assert(ids[i] != ids[n - 1]);
            assert(before.claim(TaskId { raw: ids[i] }) == view.claim(TaskId { raw: ids[i] }));
        }
    }
}

/// Where the claims won by the first `n` identities come from.
proof fn lemma_won_upto<S>(view: RegistryView<S>, ids: Seq<u64>, n: int)
    requires
        0 <= n <= ids.len(),
        ids.no_duplicates(),
        forall|i: int| 0 <= i < ids.len() ==> view.state.tasks.contains_key(#[trigger] ids[i]),
    ensures
        forall|k: int|
            0 <= k < won_upto(view, ids, n).len() ==> won_from(
                view,
                ids,
                n,
                #[trigger] won_upto(view, ids, n)[k],
            ),
        forall|i: int|
            0 <= i < n && view.claim(TaskId { raw: #[trigger] ids[i] }) is Some ==> won_by(
                won_upto(view, ids, n),
                ids[i],
            ),
        forall|j: int, k: int|
            #![trigger won_upto(view, ids, n)[j], won_upto(view, ids, n)[k]]
            0 <= j < k < won_upto(view, ids, n).len() ==> won_upto(view, ids, n)[j].id != won_upto(
                view,
                ids,
                n,
            )[k].id,
    decreases n,
{
    if n > 0 {
        lemma_won_upto(view, ids, n - 1);
        lemma_claimed_upto(view, ids, n - 1);
        let won = won_upto(view, ids, n - 1);
        let next = won_upto(view, ids, n);
        let id = TaskId { raw: ids[n - 1] };
        assert(claimed_upto(view, ids, n - 1).claim(id) == view.claim(id));
        assert forall|k: int| 0 <= k < next.len() implies won_from(
            view,
            ids,
            n,
            #[trigger] next[k],
        ) by {
            if k < won.len() {
                assert(won_from(view, ids, n - 1, won[k]));
                let i = choose|i: int| 0 <= i < n - 1 && #[trigger] ids[i] == won[k].id.raw;
                assert(ids[i] == next[k].id.raw);
            } else {
                assert(ids[n - 1] == next[k].id.raw);
            }
        }
        assert forall|i: int|
            0 <= i < n && view.claim(TaskId { raw: #[trigger] ids[i] }) is Some implies won_by(
            next,
            ids[i],
        ) by {
            if i < n - 1 {
                assert(won_by(won, ids[i]));
                let k = choose|k: int| 0 <= k < won.len() && (#[trigger] won[k]).id.raw == ids[i];
                assert(next[k] == won[k]);
            } else {
                assert(next[next.len() - 1].id.raw == ids[i]);
            }
        }
        assert forall|j: int, k: int|
            #![trigger next[j], next[k]]
            0 <= j < k < next.len() implies next[j].id != next[k].id by {
            if k < won.len() {
                assert(won[j].id != won[k].id);
            } else {
                assert(won_from(view, ids, n - 1, won[j]));
                let i = choose|i: int| 0 <= i < n - 1 && #[trigger] ids[i] == won[j].id.raw;
                assert(ids[i] != ids[n - 1]);
            }
        }
    }
}

/// Whether a claim is what the entry of one of the first `n` identities held.
spec fn won_from<S>(view: RegistryView<S>, ids: Seq<u64>, n: int, claim: Claim<S>) -> bool {
    &&& view.claim(claim.id) == Some(claim)
    &&& exists|i: int| 0 <= i < n && #[trigger] ids[i] == claim.id.raw
}

/// Whether some claim belongs to an identity.
spec fn won_by<S>(won: Seq<Claim<S>>, id: u64) -> bool {
    exists|k: int| 0 <= k < won.len() && (#[trigger] won[k]).id.raw == id
}

/// Shutdown claims every registered actor exactly once: afterwards each member is being removed,
/// each claim is what its entry held, and membership itself is unchanged.
pub proof fn law_sweep_claims_every_registered_actor<S>(view: RegistryView<S>, ids: Seq<u64>)
    requires
        view.valid(),
        lists_keys(ids, view.state.tasks),
    ensures
        ({
            let n = ids.len() as int;
            let after = claimed_upto(view, ids, n);
            let won = won_upto(view, ids, n);
            &&& after.state.tasks.dom() == view.state.tasks.dom()
            &&& forall|id: TaskId| #[trigger]
                view.state.contains(id) ==> after.state.is_removing(id)
            &&& forall|k: int|
                0 <= k < won.len() ==> view.claim((#[trigger] won[k]).id) == Some(won[k])
            &&& forall|id: TaskId| #[trigger]
                view.state.is_registered(id) ==> exists|k: int|
                    0 <= k < won.len() && (#[trigger] won[k]).id == id
            &&& forall|j: int, k: int|
                #![trigger won[j], won[k]]
                0 <= j < k < won.len() ==> won[j].id != won[k].id
        }),
{
    let n = ids.len() as int;
    let after = claimed_upto(view, ids, n);
    let won = won_upto(view, ids, n);
    assert forall|i: int| 0 <= i < ids.len() implies view.state.tasks.contains_key(
        #[trigger] ids[i],
    ) by {
        assert(ids.to_set().contains(ids[i]));
    }
    lemma_claimed_upto(view, ids, n);
    lemma_won_upto(view, ids, n);
    assert forall|k: int| 0 <= k < won.len() implies view.claim((#[trigger] won[k]).id) == Some(
        won[k],
    ) by {
        assert(won_from(view, ids, n, won[k]));
    }
    assert forall|id: TaskId| #[trigger] view.state.contains(id) implies after.state.is_removing(
        id,
    ) by {
        assert(ids.to_set().contains(id.raw));
        let i = choose|i: int| 0 <= i < ids.len() && ids[i] == id.raw;
        assert(after.state.is_removing(TaskId { raw: ids[i] }));
        assert(id == TaskId { raw: ids[i] });
    }
    assert forall|id: TaskId| #[trigger] view.state.is_registered(id) implies exists|k: int|
        0 <= k < won.len() && (#[trigger] won[k]).id == id by {
        assert(ids.to_set().contains(id.raw));
        let i = choose|i: int| 0 <= i < ids.len() && ids[i] == id.raw;
        assert(view.claim(TaskId { raw: ids[i] }) is Some);
        assert(won_by(won, ids[i]));
        let k = choose|k: int| 0 <= k < won.len() && (#[trigger] won[k]).id.raw == ids[i];
        assert(won[k].id == id);
    }
}

} // verus!
