//! Removal claims that have not reached terminal cleanup.
//!
//! A winning claim registers here before its actor handle leaves registry state. Terminal cleanup
//! removes the registration. Shutdown uses the count as a wait barrier and retains names for
//! grace-expiry diagnostics. This state does not decide removal ownership.

use std::collections::HashMap;
use vstd::prelude::*;

use crate::identity::TaskId;
use crate::maps::{lists_keys, map_keys};

verus! {

broadcast use vstd::std_specs::hash::group_hash_axioms;

/// Barrier for claimed removal owners.
pub struct PendingJoins {
    counts: HashMap<u64, usize>,
    names: HashMap<u64, String>,
}

/// Contents of [`PendingJoins`].
#[verifier::ext_equal]
pub struct PendingView {
    /// Number of removal owners still active for each task.
    pub counts: Map<u64, usize>,
    /// Task names retained for shutdown diagnostics.
    pub names: Map<u64, String>,
}

impl View for PendingJoins {
    type V = PendingView;

    closed spec fn view(&self) -> PendingView {
        PendingView { counts: self.counts@, names: self.names@ }
    }
}

/// Whether `names` lists the values of a map, one per key.
pub open spec fn lists_names(names: Seq<String>, map: Map<u64, String>) -> bool {
    exists|ids: Seq<u64>| #[trigger]
        lists_keys(ids, map) && names == ids.map_values(|id: u64| map[id])
}

impl PendingView {
    /// No removal owner at all.
    pub open spec fn none() -> PendingView {
        PendingView { counts: Map::empty(), names: Map::empty() }
    }

    /// Every count is positive, and only counted owners have a name.
    pub open spec fn valid(self) -> bool {
        &&& forall|id: u64| #[trigger] self.counts.contains_key(id) ==> self.counts[id] >= 1
        &&& self.names.dom().subset_of(self.counts.dom())
    }

    /// Number of owners of a task.
    pub open spec fn owners(self, id: TaskId) -> nat {
        if self.counts.contains_key(id.raw) {
            self.counts[id.raw] as nat
        } else {
            0
        }
    }

    /// One more owner.
    pub open spec fn incremented(self, id: TaskId) -> PendingView {
        PendingView {
            counts: self.counts.insert(id.raw, (self.owners(id) + 1) as usize),
            ..self
        }
    }

    /// One more owner, with its name.
    pub open spec fn claimed(self, id: TaskId, name: String) -> PendingView {
        PendingView {
            names: self.names.insert(id.raw, name),
            ..self.incremented(id)
        }
    }

    /// One owner fewer, if there is one. The last owner takes the name along.
    pub open spec fn finished(self, id: TaskId) -> PendingView {
        if self.owners(id) <= 1 {
            PendingView { counts: self.counts.remove(id.raw), names: self.names.remove(id.raw) }
        } else {
            PendingView {
                counts: self.counts.insert(id.raw, (self.owners(id) - 1) as usize),
                ..self
            }
        }
    }

    /// Whether every removal owner finished.
    pub open spec fn drained(self) -> bool {
        self.counts.dom() == Set::<u64>::empty()
    }
}

impl PendingJoins {
    /// Barrier without owners.
    pub fn new() -> (pending: PendingJoins)
        ensures
            pending@ == PendingView::none(),
            pending@.valid(),
    {
        let pending = PendingJoins { counts: HashMap::new(), names: HashMap::new() };
        proof {
            assert(pending@ =~= PendingView::none());
        }
        pending
    }

    /// Registers one removal owner without a name.
    pub fn inc(&mut self, id: TaskId)
        requires
            old(self)@.valid(),
            old(self)@.owners(id) < usize::MAX,
        ensures
            final(self)@ == old(self)@.incremented(id),
            final(self)@.valid(),
    {
        let count: usize = match self.counts.get(&id.raw) {
            Some(count) => *count,
            None => 0,
        };
        self.counts.insert(id.raw, count + 1);
        proof {
            assert(self@ =~= old(self)@.incremented(id));
        }
    }

    /// Attaches a diagnostic name to an existing owner.
    pub fn name(&mut self, id: TaskId, name: String)
        requires
            old(self)@.valid(),
        ensures
            final(self)@ == (if old(self)@.counts.contains_key(id.raw) {
                PendingView { names: old(self)@.names.insert(id.raw, name), ..old(self)@ }
            } else {
                old(self)@
            }),
            final(self)@.valid(),
    {
        if self.counts.contains_key(&id.raw) {
            self.names.insert(id.raw, name);
        }
    }

    /// Registers one removal owner and its diagnostic name.
    pub fn inc_with_name(&mut self, id: TaskId, name: String)
        requires
            old(self)@.valid(),
            old(self)@.owners(id) < usize::MAX,
        ensures
            final(self)@ == old(self)@.claimed(id, name),
            final(self)@.valid(),
    {
        self.inc(id);
        self.names.insert(id.raw, name);
    }

    /// Finishes one removal owner. Waiters wake when the result says that none remain.
    pub fn dec(&mut self, id: TaskId) -> (drained: bool)
        requires
            old(self)@.valid(),
        ensures
            final(self)@ == old(self)@.finished(id),
            final(self)@.valid(),
            drained == final(self)@.drained(),
    {
        let count: usize = match self.counts.get(&id.raw) {
            Some(count) => *count,
            None => 0,
        };
        if count <= 1 {
            let _ = self.counts.remove(&id.raw);
            let _ = self.names.remove(&id.raw);
        } else {
            self.counts.insert(id.raw, count - 1);
        }
        proof {
            assert(self@ =~= old(self)@.finished(id));
        }
        self.is_empty()
    }

    /// Whether a removal owner still holds `id`.
    pub fn contains(&self, id: TaskId) -> (held: bool)
        ensures
            held == self@.counts.contains_key(id.raw),
    {
        self.counts.contains_key(&id.raw)
    }

    /// Whether every removal owner finished.
    pub fn is_empty(&self) -> (empty: bool)
        ensures
            empty == self@.drained(),
    {
        let empty = self.counts.is_empty();
        proof {
            if empty {
                assert(self@.counts.dom() =~= Set::<u64>::empty());
            }
        }
        empty
    }

    /// Names of the removal owners still active, in no particular order.
    pub fn pending_names(&self) -> (names: Vec<String>)
        ensures
            lists_names(names@, self@.names),
    {
        let ids = map_keys(&self.names);
        let ghost name_of = |id: u64| self@.names[id];
        let mut names: Vec<String> = Vec::new();
        let mut i: usize = 0;
        while i < ids.len()
            invariant
                i <= ids.len(),
                lists_keys(ids@, self@.names),
                self.names@ == self@.names,
                name_of == (|id: u64| self@.names[id]),
                names@ == ids@.take(i as int).map_values(name_of),
            decreases ids.len() - i,
        {
            proof {
                assert(ids@.to_set().contains(ids@[i as int]));
            }
            if let Some(name) = self.names.get(&ids[i]) {
                names.push(name.clone());
            }
            i = i + 1;
            proof {
                assert(names@ =~= ids@.take(i as int).map_values(name_of));
            }
        }
        proof {
            assert(ids@.take(i as int) =~= ids@);
        }
        names
    }
}

/// A claim and its terminal cleanup cancel out: the barrier is as it was before.
pub proof fn law_finish_undoes_claim(pending: PendingView, id: TaskId, name: String)
    requires
        pending.valid(),
        pending.owners(id) == 0,
    ensures
        pending.claimed(id, name).finished(id) == pending,
{
    assert(!pending.names.contains_key(id.raw));
    assert(pending.claimed(id, name).finished(id) =~= pending);
}

/// Cleanup for a task that nobody claimed changes nothing.
pub proof fn law_stray_finish_changes_nothing(pending: PendingView, id: TaskId)
    requires
        pending.valid(),
        pending.owners(id) == 0,
    ensures
        pending.finished(id) == pending,
{
    assert(!pending.names.contains_key(id.raw));
    assert(pending.finished(id) =~= pending);
}

/// The barrier is drained only when the last owner of every task has finished.
pub proof fn law_drained_means_no_owner(pending: PendingView)
    requires
        pending.valid(),
    ensures
        pending.drained() <==> forall|id: TaskId| #[trigger] pending.owners(id) == 0,
{
    if forall|id: TaskId| #[trigger] pending.owners(id) == 0 {
        assert forall|raw: u64| !pending.counts.dom().contains(raw) by {
            assert(pending.owners(TaskId { raw }) == 0);
        }
        assert(pending.counts.dom() =~= Set::<u64>::empty());
    }
}

/// A claim adds one owner to its own task, under its name, and to no other; finishing takes one
/// away again, and the name leaves with the last owner.
pub proof fn law_owners_are_counted_one_by_one(
    pending: PendingView,
    id: TaskId,
    other: TaskId,
    name: String,
)
    requires
        pending.valid(),
        pending.owners(id) < usize::MAX,
        other != id,
    ensures
        pending.claimed(id, name).owners(id) == pending.owners(id) + 1,
        pending.claimed(id, name).names.contains_key(id.raw),
        pending.claimed(id, name).names[id.raw] == name,
        pending.claimed(id, name).owners(other) == pending.owners(other),
        pending.finished(id).owners(other) == pending.owners(other),
        pending.owners(id) > 0 ==> pending.finished(id).owners(id) == pending.owners(id) - 1,
        pending.owners(id) == 1 ==> !pending.finished(id).names.contains_key(id.raw),
        pending.owners(id) > 1 && pending.names.contains_key(id.raw) ==> pending.finished(
            id,
        ).names.contains_key(id.raw),
        pending.finished(id).names.contains_key(other.raw) == pending.names.contains_key(other.raw),
        PendingView::none().owners(id) == 0,
{
    assert(other.raw != id.raw);
}

/// The names of unfinished removals are exactly those that were claimed and not finished.
pub proof fn law_every_pending_name_is_listed(
    names: Seq<String>,
    pending: PendingView,
    id: u64,
)
    requires
        lists_names(names, pending.names),
        pending.names.contains_key(id),
    ensures
        names.contains(pending.names[id]),
        names.len() == pending.names.dom().len(),
{
    let ids = choose|ids: Seq<u64>| #[trigger]
        lists_keys(ids, pending.names) && names == ids.map_values(|id: u64| pending.names[id]);
    assert(ids.to_set().contains(id));
    let i = choose|i: int| 0 <= i < ids.len() && ids[i] == id;
    assert(names[i] == pending.names[id]);
    ids.unique_seq_to_set();
}

} // verus!
