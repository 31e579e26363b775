//! Commits a static task batch as one registry decision.
//!
//! A batch is refused when a name is taken, when a name repeats inside the batch, or when the
//! complete batch would exceed the registration limit. Refusal inserts no entries and starts no
//! task bodies. Acceptance indexes every item first; then come every `TaskAdded` event, the direct
//! reply, the spawn of every actor, and the shared start gate.

use tokio::sync::oneshot;
use vstd::hash_map::StringHashMap;
use vstd::prelude::*;

use super::actor::ScheduledActor;
use super::admission::{
    add_failed, add_failed_event, batch_limit_reason, batch_limit_reason_view, lemma_indexed_valid,
    prepared_pair, task_event_of, REGISTERED_TASKS,
};
use super::effects::{effect_views, lemma_effect_views_push, Effect, EffectView};
use super::protocol::{AddBatchItem, AddReply};
use super::state::{Entry, InnerView};
use super::{Registry, RegistryView};
use crate::error::{RuntimeError, RuntimeErrorView};
use crate::events::{task_event, EventKind, RejectionKind};
use crate::reasons::{ALREADY_EXISTS, BATCH_REJECTED};
use crate::search::{first_from, first_where, lemma_first_where};
use crate::task_defaults::TaskDefaults;

verus! {

broadcast use {
    lemma_effect_views_push,
    vstd::hash_map::group_hash_map_axioms,
    vstd::std_specs::hash::group_hash_axioms,
};

/// Whether the name of an item occurs earlier in the batch.
pub open spec fn repeats<S>(items: Seq<AddBatchItem<S>>, i: int) -> bool {
    exists|j: int| 0 <= j < i && (#[trigger] items[j]).name@ == items[i].name@
}

/// Whether an item cannot be given its name.
pub open spec fn conflicts<S>(
    view: RegistryView<S>,
    items: Seq<AddBatchItem<S>>,
    i: int,
) -> bool {
    view.name_taken(items[i].name@) || repeats(items, i)
}

/// For each item, whether it conflicts.
pub open spec fn conflict_flags<S>(view: RegistryView<S>, items: Seq<AddBatchItem<S>>) -> Seq<
    bool,
> {
    Seq::new(items.len(), |i: int| conflicts(view, items, i))
}

/// Position of the first conflicting item.
pub open spec fn first_conflict<S>(view: RegistryView<S>, items: Seq<AddBatchItem<S>>) -> Option<
    int,
> {
    first_where(conflict_flags(view, items), |conflict: bool| conflict)
}

/// Whether the identities of a batch are free and differ from each other.
pub open spec fn fresh_batch<S>(view: RegistryView<S>, items: Seq<AddBatchItem<S>>) -> bool {
    &&& forall|i: int| 0 <= i < items.len() ==> view.is_fresh((#[trigger] items[i]).id)
    &&& forall|i: int, j: int|
        #![trigger items[i], items[j]]
        0 <= i < j < items.len() ==> items[i].id != items[j].id
}

/// Event for one item of a batch with conflicts.
pub open spec fn conflict_event<S>(item: AddBatchItem<S>, conflict: bool) -> EffectView<S> {
    EffectView::Publish(
        if conflict {
            add_failed_event(item.id, item.name@, RejectionKind::AlreadyExists, ALREADY_EXISTS@)
        } else {
            add_failed_event(item.id, item.name@, RejectionKind::BatchRejected, BATCH_REJECTED@)
        },
    )
}

/// Events for a batch with conflicts, in item order.
pub open spec fn conflict_events<S>(items: Seq<AddBatchItem<S>>, flags: Seq<bool>) -> Seq<
    EffectView<S>,
> {
    Seq::new(items.len(), |i: int| conflict_event(items[i], flags[i]))
}

/// Events for a batch beyond the limit, in item order.
pub open spec fn limit_events<S>(items: Seq<AddBatchItem<S>>, current: nat, limit: nat) -> Seq<
    EffectView<S>,
> {
    Seq::new(
        items.len(),
        |i: int|
            EffectView::Publish(
                add_failed_event(
                    items[i].id,
                    items[i].name@,
                    RejectionKind::ResourceLimit,
                    batch_limit_reason_view(current, limit),
                ),
            ),
    )
}

/// Submission of the user values of a refused batch, in item order.
pub open spec fn submissions<S>(items: Seq<AddBatchItem<S>>) -> Seq<EffectView<S>> {
    Seq::new(items.len(), |i: int| EffectView::Submit(items[i].owned.cleanup))
}

/// Events for an accepted batch, in item order.
pub open spec fn added_events<S>(items: Seq<AddBatchItem<S>>) -> Seq<EffectView<S>> {
    Seq::new(
        items.len(),
        |i: int|
            EffectView::Publish(task_event(EventKind::TaskAdded, items[i].id, items[i].name@)),
    )
}

/// Spawns for an accepted batch, in item order.
pub open spec fn schedules<S>(actors: Seq<ScheduledActor<S>>) -> Seq<EffectView<S>> {
    actors.map_values(|actor: ScheduledActor<S>| EffectView::Schedule(actor))
}

/// Membership after the first `n` entries of a batch were indexed.
pub open spec fn indexed_upto<S>(
    state: InnerView<S>,
    items: Seq<AddBatchItem<S>>,
    entries: Seq<Entry<S>>,
    n: int,
) -> InnerView<S>
    decreases n,
{
    if n <= 0 {
        state
    } else {
        indexed_upto(state, items, entries, n - 1).indexed(items[n - 1].id, entries[n - 1])
    }
}

/// Whether an entry and an actor are the two halves of an item of a batch.
pub open spec fn prepared_item<S>(
    item: AddBatchItem<S>,
    entry: Entry<S>,
    actor: ScheduledActor<S>,
    defaults: TaskDefaults,
) -> bool {
    prepared_pair(
        entry,
        actor,
        item.id,
        item.name,
        item.owned,
        None,
        item.completion,
        defaults,
    )
}

/// Whether `entries` and `actors` are the two halves of a freshly accepted batch.
pub open spec fn prepared_batch<S>(
    items: Seq<AddBatchItem<S>>,
    entries: Seq<Entry<S>>,
    actors: Seq<ScheduledActor<S>>,
    defaults: TaskDefaults,
) -> bool {
    &&& entries.len() == items.len()
    &&& actors.len() == items.len()
    &&& forall|i: int|
        0 <= i < items.len() ==> prepared_item(
            items[i],
            #[trigger] entries[i],
            actors[i],
            defaults,
        )
}

/// What a batch command does to the registry and asks of the runtime.
pub open spec fn batch_decision<S>(
    before: RegistryView<S>,
    items: Seq<AddBatchItem<S>>,
    reply: oneshot::Sender<AddReply>,
    after: RegistryView<S>,
    effects: Seq<EffectView<S>>,
) -> bool {
    match first_conflict(before, items) {
        Some(first) => {
            &&& after == before
            &&& effects == conflict_events(items, conflict_flags(before, items)).push(
                EffectView::ReplyAdd(
                    reply,
                    Err(RuntimeErrorView::TaskAlreadyExists { name: items[first].name@ }),
                ),
            ) + submissions(items)
        },
        None => match before.limit_exceeded(items.len()) {
            Some(limit) => {
                &&& after == before
                &&& effects == limit_events(
                    items,
                    before.state.tasks.len() as nat,
                    limit as nat,
                ).push(
                    EffectView::ReplyAdd(
                        reply,
                        Err(
                            RuntimeErrorView::ResourceLimitReached {
                                resource: REGISTERED_TASKS@,
                                limit,
                            },
                        ),
                    ),
                ) + submissions(items)
            },
            None => {
                exists|entries: Seq<Entry<S>>, actors: Seq<ScheduledActor<S>>|
                    {
                        &&& #[trigger] prepared_batch(
                            items,
                            entries,
                            actors,
                            before.task_defaults,
                        )
                        &&& after == (RegistryView {
                            state: indexed_upto(
                                before.state,
                                items,
                                entries,
                                items.len() as int,
                            ),
                            ..before
                        })
                        &&& effects == (added_events(items).push(
                            EffectView::ReplyAdd(reply, Ok(())),
                        ) + schedules(actors)).push(EffectView::OpenStartGate)
                    }
            },
        },
    }
}

impl<S> Registry<S> {
    /// For each item, whether it conflicts with the registry, the reaper, or an earlier item.
    pub fn check_batch(&self, items: &Vec<AddBatchItem<S>>) -> (flags: Vec<bool>)
        ensures
            flags@ == conflict_flags(self@, items@),
    {
        let mut seen: StringHashMap<bool> = StringHashMap::new();
        let mut flags: Vec<bool> = Vec::new();
        let mut i: usize = 0;
        while i < items.len()
            invariant
                i <= items.len(),
                flags@.len() == i,
                forall|j: int| 0 <= j < i ==> flags@[j] == #[trigger] conflicts(self@, items@, j),
                forall|name: Seq<char>| #[trigger]
                    seen@.contains_key(name) <==> exists|j: int|
                        0 <= j < i && (#[trigger] items@[j]).name@ == name,
            decreases items.len() - i,
        {
            let name = &items[i].name;
            let taken = self.name_taken(name);
            let repeated = seen.contains_key(name.as_str());
            let ghost before = seen@;
            seen.insert(name.clone(), true);
            flags.push(taken || repeated);
            proof {
                assert(flags@[i as int] == conflicts(self@, items@, i as int));
                assert forall|key: Seq<char>| #[trigger] seen@.contains_key(key) <==> exists|
                    j: int,
                |
                    0 <= j < i + 1 && (#[trigger] items@[j]).name@ == key by {
                    if seen@.contains_key(key) {
                        if key == name@ {
                            assert(items@[i as int].name@ == key);
                        } else {
                            assert(before.contains_key(key));
                        }
                    }
                    if exists|j: int| 0 <= j < i + 1 && (#[trigger] items@[j]).name@ == key {
                        let j = choose|j: int|
                            0 <= j < i + 1 && (#[trigger] items@[j]).name@ == key;
                        if j < i {
                            assert(before.contains_key(key));
                        }
                    }
                }
            }
            i = i + 1;
        }
        proof {
            assert(flags@ =~= conflict_flags(self@, items@));
        }
        flags
    }

    /// Position of the first conflict.
    fn first_flag(flags: &Vec<bool>) -> (first: Option<usize>)
        ensures
            match first {
                Some(index) => index < flags@.len() && first_where(
                    flags@,
                    |conflict: bool| conflict,
                ) == Some(index as int),
                None => first_where(flags@, |conflict: bool| conflict) is None,
            },
    {
        let ghost is_set = |conflict: bool| conflict;
        let mut i: usize = 0;
        while i < flags.len()
            invariant
                i <= flags.len(),
                is_set == (|conflict: bool| conflict),
                first_from(flags@, is_set, 0) == first_from(flags@, is_set, i as int),
            decreases flags.len() - i,
        {
            if flags[i] {
                return Some(i);
            }
            i = i + 1;
        }
        None
    }

    /// Gives up the user values of a refused batch.
    fn submit_all(items: Vec<AddBatchItem<S>>, effects: &mut Vec<Effect<S>>)
        ensures
            effect_views(final(effects)@) == effect_views(old(effects)@) + submissions(items@),
    {
        let ghost before = effect_views(effects@);
        let ghost all = items@;
        proof {
            assert(before =~= before + submissions(all).take(0));
        }
        for item in iter: items
            invariant
                iter.seq() == all,
                effect_views(effects@) == before + submissions(all).take(iter.index()),
        {
            effects.push(Effect::Submit(item.owned.cleanup));
            proof {
                assert(effect_views(effects@) =~= before + submissions(all).take(
                    iter.index() + 1,
                ));
            }
        }
        proof {
            assert(submissions(all).take(all.len() as int) =~= submissions(all));
        }
    }

    /// All-or-nothing decision for one batch command.
    pub fn spawn_and_register_batch(
        &mut self,
        items: Vec<AddBatchItem<S>>,
        reply: oneshot::Sender<AddReply>,
    ) -> (effects: Vec<Effect<S>>)
        requires
            old(self)@.valid(),
            fresh_batch(old(self)@, items@),
        ensures
            final(self)@.valid(),
            batch_decision(old(self)@, items@, reply, final(self)@, effect_views(effects@)),
    {
        let ghost view = self@;
        let ghost all = items@;
        let mut effects: Vec<Effect<S>> = Vec::new();
        proof {
            assert(effect_views(effects@) =~= Seq::empty());
        }
        let flags = self.check_batch(&items);
        match Self::first_flag(&flags) {
            Some(first) => {
                let name = items[first].name.clone();
                let mut i: usize = 0;
                while i < items.len()
                    invariant
                        i <= items.len(),
                        all == items@,
                        flags@.len() == items.len(),
                        effect_views(effects@) == conflict_events(all, flags@).take(i as int),
                    decreases items.len() - i,
                {
                    let event = if flags[i] {
                        add_failed(
                            items[i].id,
                            &items[i].name,
                            RejectionKind::AlreadyExists,
                            ALREADY_EXISTS,
                        )
                    } else {
                        add_failed(
                            items[i].id,
                            &items[i].name,
                            RejectionKind::BatchRejected,
                            BATCH_REJECTED,
                        )
                    };
                    effects.push(Effect::Publish(event));
                    i = i + 1;
                    proof {
                        assert(effect_views(effects@) =~= conflict_events(all, flags@).take(
                            i as int,
                        ));
                    }
                }
                proof {
                    assert(conflict_events(all, flags@).take(i as int) =~= conflict_events(
                        all,
                        flags@,
                    ));
                }
                effects.push(
                    Effect::ReplyAdd(reply, Err(RuntimeError::TaskAlreadyExists { name })),
                );
                Self::submit_all(items, &mut effects);
                return effects;
            },
            None => {},
        }
        if let Some(limit) = self.registered_limit_exceeded(items.len()) {
            let current = self.state.len();
            let reason = batch_limit_reason(current, limit);
            let mut i: usize = 0;
            while i < items.len()
                invariant
                    i <= items.len(),
                    all == items@,
                    reason@ == batch_limit_reason_view(current as nat, limit as nat),
                    effect_views(effects@) == limit_events(
                        all,
                        current as nat,
                        limit as nat,
                    ).take(i as int),
                decreases items.len() - i,
            {
                let event = add_failed(
                    items[i].id,
                    &items[i].name,
                    RejectionKind::ResourceLimit,
                    reason.as_str(),
                );
                effects.push(Effect::Publish(event));
                i = i + 1;
                proof {
                    assert(effect_views(effects@) =~= limit_events(
                        all,
                        current as nat,
                        limit as nat,
                    ).take(i as int));
                }
            }
            proof {
                let events = limit_events(all, current as nat, limit as nat);
                assert(events.take(i as int) =~= events);
            }
            effects.push(
                Effect::ReplyAdd(
                    reply,
                    Err(
                        RuntimeError::ResourceLimitReached { resource: REGISTERED_TASKS, limit },
                    ),
                ),
            );
            Self::submit_all(items, &mut effects);
            return effects;
        }
        let mut scheduled: Vec<ScheduledActor<S>> = Vec::new();
        let ghost mut entries: Seq<Entry<S>> = Seq::empty();
        proof {
            assert(effect_views(effects@) =~= added_events(all).take(0));
            lemma_first_where(conflict_flags(view, all), |conflict: bool| conflict);
            assert forall|i: int| 0 <= i < all.len() implies !#[trigger] conflicts(
                view,
                all,
                i,
            ) by {
                assert(!conflict_flags(view, all)[i]);
            }
        }
        for item in iter: items
            invariant
                iter.seq() == all,
                view.valid(),
                fresh_batch(view, all),
                forall|i: int| 0 <= i < all.len() ==> !#[trigger] conflicts(view, all, i),
                entries.len() == iter.index(),
                scheduled@.len() == iter.index(),
                forall|i: int|
                    0 <= i < iter.index() ==> prepared_item(
                        all[i],
                        #[trigger] entries[i],
                        scheduled@[i],
                        view.task_defaults,
                    ),
                self@ == (RegistryView {
                    state: indexed_upto(view.state, all, entries, iter.index()),
                    ..view
                }),
                self@.valid(),
                effect_views(effects@) == added_events(all).take(iter.index()),
        {
            let ghost n = iter.index();
            proof {
                assert(item == all[n]);
                lemma_batch_item_is_new(view, all, entries, n);
            }
            let event = task_event_of(EventKind::TaskAdded, item.id, &item.name);
            let prepared = self.prepare_registration(
                item.id,
                item.name,
                item.owned,
                None,
                None,
                item.completion,
            );
            let ghost before = self@;
            let ghost entry = prepared.entry;
            self.state.index(item.id, prepared.entry);
            proof {
                lemma_indexed_valid(before, item.id, entry);
                let next = entries.push(entry);
                lemma_indexed_prefix(view.state, all, entries, next, n);
                entries = next;
            }
            scheduled.push(prepared.scheduled);
            effects.push(Effect::Publish(event));
            proof {
                assert(effect_views(effects@) =~= added_events(all).take(n + 1));
            }
        }
        proof {
            assert(added_events(all).take(all.len() as int) =~= added_events(all));
            assert(prepared_batch(all, entries, scheduled@, view.task_defaults));
        }
        effects.push(Effect::ReplyAdd(reply, Ok(())));
        let ghost replied = effect_views(effects@);
        let ghost actors = scheduled@;
        proof {
            assert(replied =~= replied + schedules(actors).take(0));
        }
        for actor in iter: scheduled
            invariant
                iter.seq() == actors,
                effect_views(effects@) == replied + schedules(actors).take(iter.index()),
        {
            effects.push(Effect::Schedule(actor));
            proof {
                assert(effect_views(effects@) =~= replied + schedules(actors).take(
                    iter.index() + 1,
                ));
            }
        }
        proof {
            assert(schedules(actors).take(actors.len() as int) =~= schedules(actors));
        }
        effects.push(Effect::OpenStartGate);
        effects
    }
}

/// Indexing depends on the entries that are indexed, and on no later one.
proof fn lemma_indexed_prefix<S>(
    state: InnerView<S>,
    items: Seq<AddBatchItem<S>>,
    entries: Seq<Entry<S>>,
    longer: Seq<Entry<S>>,
    n: int,
)
    requires
        0 <= n <= entries.len() <= longer.len(),
        forall|i: int| 0 <= i < n ==> entries[i] == longer[i],
    ensures
        indexed_upto(state, items, entries, n) == indexed_upto(state, items, longer, n),
    decreases n,
{
    if n > 0 {
        lemma_indexed_prefix(state, items, entries, longer, n - 1);
    }
}

/// Who is a member after the first `n` entries of a batch: the earlier members and those items.
pub proof fn lemma_batch_members<S>(
    state: InnerView<S>,
    items: Seq<AddBatchItem<S>>,
    entries: Seq<Entry<S>>,
    n: int,
)
    requires
        0 <= n <= items.len(),
        n <= entries.len(),
        forall|i: int| 0 <= i < n ==> (#[trigger] entries[i]).name == items[i].name,
    ensures
        forall|id: u64| #[trigger]
            indexed_upto(state, items, entries, n).tasks.contains_key(id) <==> (
            state.tasks.contains_key(id) || exists|i: int|
                0 <= i < n && (#[trigger] items[i]).id.raw == id),
        forall|name: Seq<char>| #[trigger]
            indexed_upto(state, items, entries, n).by_name.contains_key(name) <==> (
            state.by_name.contains_key(name) || exists|i: int|
                0 <= i < n && (#[trigger] items[i]).name@ == name),
    decreases n,
{
    if n > 0 {
        lemma_batch_members(state, items, entries, n - 1);
        let before = indexed_upto(state, items, entries, n - 1);
        let after = indexed_upto(state, items, entries, n);
        assert forall|id: u64| #[trigger] after.tasks.contains_key(id) <==> (
        state.tasks.contains_key(id) || exists|i: int|
            0 <= i < n && (#[trigger] items[i]).id.raw == id) by {
            if after.tasks.contains_key(id) && id != items[n - 1].id.raw {
                assert(before.tasks.contains_key(id));
            }
            if exists|i: int| 0 <= i < n && (#[trigger] items[i]).id.raw == id {
                let i = choose|i: int| 0 <= i < n && (#[trigger] items[i]).id.raw == id;
                if i < n - 1 {
                    assert(before.tasks.contains_key(id));
                }
            }
            if state.tasks.contains_key(id) {
                assert(before.tasks.contains_key(id));
            }
        }
        assert forall|name: Seq<char>| #[trigger] after.by_name.contains_key(name) <==> (
        state.by_name.contains_key(name) || exists|i: int|
            0 <= i < n && (#[trigger] items[i]).name@ == name) by {
            assert(entries[n - 1].name == items[n - 1].name);
            if after.by_name.contains_key(name) && name != items[n - 1].name@ {
                assert(before.by_name.contains_key(name));
            }
            if exists|i: int| 0 <= i < n && (#[trigger] items[i]).name@ == name {
                let i = choose|i: int| 0 <= i < n && (#[trigger] items[i]).name@ == name;
                if i < n - 1 {
                    assert(before.by_name.contains_key(name));
                }
            }
            if state.by_name.contains_key(name) {
                assert(before.by_name.contains_key(name));
            }
        }
    }
}

/// The next item of a conflict-free batch brings a free identity and a free name.
proof fn lemma_batch_item_is_new<S>(
    view: RegistryView<S>,
    items: Seq<AddBatchItem<S>>,
    entries: Seq<Entry<S>>,
    n: int,
)
    requires
        0 <= n < items.len(),
        n <= entries.len(),
        fresh_batch(view, items),
        !conflicts(view, items, n),
        forall|i: int| 0 <= i < n ==> (#[trigger] entries[i]).name == items[i].name,
    ensures
        !indexed_upto(view.state, items, entries, n).contains(items[n].id),
        indexed_upto(view.state, items, entries, n).owner_of(items[n].name@) is None,
        view.pending.owners(items[n].id) == 0,
{
    lemma_batch_members(view.state, items, entries, n);
    assert(view.is_fresh(items[n].id));
    let state = indexed_upto(view.state, items, entries, n);
    if state.contains(items[n].id) {
        let i = choose|i: int| 0 <= i < n && (#[trigger] items[i]).id.raw == items[n].id.raw;
        assert(items[i].id != items[n].id);
        assert(false);
    }
    if state.by_name.contains_key(items[n].name@) {
        assert(repeats(items, n));
    }
}

} // verus!
