//! The registry's authoritative membership and removal phase.
//!
//! Remove, cancel, natural completion, and shutdown compete for the same transition:
//!
//! ```text
//! registered ──► removing ──► absent
//! ```
//!
//! The winning claim moves the only actor handle out of the entry. Both indexes remain until
//! terminal commit finishes the removing phase.

use std::collections::HashMap;
use vstd::hash_map::StringHashMap;
use vstd::prelude::*;

use super::actor::{ActorHandle, ActorTask};
use super::completion::{OutcomeTx, RemovalCompletion};
use crate::deferred_drop::DropBundle;
use crate::identity::TaskId;
use crate::maps::{lists_keys, map_keys};

verus! {

broadcast use {vstd::std_specs::hash::group_hash_axioms, vstd::hash_map::group_hash_map_axioms};

/// Owns the actor and terminal data while an entry is registered.
#[verifier::reject_recursive_types(S)]
pub struct Handle<S> {
    /// Physical actor handle claimed by exactly one removal owner.
    pub join: ActorHandle<S>,
    /// Optional sender for the watched terminal outcome.
    pub done: Option<OutcomeTx<S>>,
    /// Shared logical and physical release latches.
    pub completion: RemovalCompletion,
    /// User values and their cleanup capacity.
    pub cleanup: DropBundle<S>,
}

/// Lifecycle phase of one registry entry.
#[verifier::reject_recursive_types(S)]
pub enum EntryState<S> {
    /// The actor can still be claimed by remove, completion, or shutdown.
    Registered(Handle<S>),
    /// One owner has the actor handle and must commit terminal removal.
    Removing {
        /// Shared release latches retained after the actor handle moves out.
        completion: RemovalCompletion,
    },
}

/// Membership record kept until terminal join cleanup finishes.
#[verifier::reject_recursive_types(S)]
pub struct Entry<S> {
    /// Task name reserved by this entry.
    pub name: String,
    /// Whether the actor is currently inside an attempt.
    pub activity: bool,
    /// Current membership and actor-ownership phase.
    pub state: EntryState<S>,
}

/// Registry indexes.
#[verifier::reject_recursive_types(S)]
pub struct Inner<S> {
    tasks: HashMap<u64, Entry<S>>,
    by_name: StringHashMap<u64>,
}

/// Contents of [`Inner`].
#[verifier::reject_recursive_types(S)]
#[verifier::ext_equal]
pub struct InnerView<S> {
    /// Task map keyed by runtime identity, in both phases.
    pub tasks: Map<u64, Entry<S>>,
    /// Name lookup used for conflict checks and name-based operations.
    pub by_name: Map<Seq<char>, u64>,
}

impl<S> View for Inner<S> {
    type V = InnerView<S>;

    closed spec fn view(&self) -> InnerView<S> {
        InnerView { tasks: self.tasks@, by_name: self.by_name@ }
    }
}

/// What a removal claim moves out of the registry.
pub open spec fn claim_parts<S>(entry: Entry<S>) -> Option<(String, Handle<S>, RemovalCompletion)> {
    match entry.state {
        EntryState::Registered(handle) => Some((entry.name, handle, handle.completion)),
        EntryState::Removing { .. } => None,
    }
}

impl<S> InnerView<S> {
    /// No entry at all.
    pub open spec fn none() -> InnerView<S> {
        InnerView { tasks: Map::empty(), by_name: Map::empty() }
    }

    /// The two indexes agree: every entry is found under its name, and every name leads to its
    /// entry. There are finitely many entries.
    pub open spec fn in_sync(self) -> bool {
        &&& self.tasks.dom().finite()
        &&& forall|id: u64| #[trigger]
            self.tasks.contains_key(id) ==> self.by_name.contains_key(self.tasks[id].name@)
                && self.by_name[self.tasks[id].name@] == id
        &&& forall|name: Seq<char>| #[trigger]
            self.by_name.contains_key(name) ==> self.tasks.contains_key(self.by_name[name])
                && self.tasks[self.by_name[name]].name@ == name
    }

    /// Whether an identity is a member, in either phase.
    pub open spec fn contains(self, id: TaskId) -> bool {
        self.tasks.contains_key(id.raw)
    }

    /// Entry of a member.
    pub open spec fn entry(self, id: TaskId) -> Entry<S> {
        self.tasks[id.raw]
    }

    /// Whether an identity is a member whose actor nobody has claimed.
    pub open spec fn is_registered(self, id: TaskId) -> bool {
        self.contains(id) && self.entry(id).state is Registered
    }

    /// Whether an identity is a member whose actor is claimed.
    pub open spec fn is_removing(self, id: TaskId) -> bool {
        self.contains(id) && self.entry(id).state is Removing
    }

    /// Identity that holds a name.
    pub open spec fn owner_of(self, name: Seq<char>) -> Option<TaskId> {
        if self.by_name.contains_key(name) {
            Some(TaskId { raw: self.by_name[name] })
        } else {
            None
        }
    }

    /// With one more entry, in both indexes.
    pub open spec fn indexed(self, id: TaskId, entry: Entry<S>) -> InnerView<S> {
        InnerView {
            tasks: self.tasks.insert(id.raw, entry),
            by_name: self.by_name.insert(entry.name@, id.raw),
        }
    }

    /// What a claim of `id` wins: nothing unless it is registered.
    pub open spec fn claim(self, id: TaskId) -> Option<(String, Handle<S>, RemovalCompletion)> {
        if self.contains(id) {
            claim_parts(self.entry(id))
        } else {
            None
        }
    }

    /// After a claim of `id`: a registered entry is removing, everything else is as it was.
    pub open spec fn claimed(self, id: TaskId) -> InnerView<S> {
        match self.claim(id) {
            Some((_, _, completion)) => InnerView {
                tasks: self.tasks.insert(
                    id.raw,
                    Entry { state: EntryState::Removing { completion }, ..self.entry(id) },
                ),
                ..self
            },
            None => self,
        }
    }

    /// Without `id`, in both indexes.
    pub open spec fn without(self, id: TaskId) -> InnerView<S> {
        InnerView {
            tasks: self.tasks.remove(id.raw),
            by_name: self.by_name.remove(self.entry(id).name@),
        }
    }

    /// With the activity of a member recorded.
    pub open spec fn with_activity(self, id: TaskId, active: bool) -> InnerView<S> {
        if self.contains(id) {
            InnerView {
                tasks: self.tasks.insert(id.raw, Entry { activity: active, ..self.entry(id) }),
                ..self
            }
        } else {
            self
        }
    }
}

impl<S> Inner<S> {
    /// Indexes without entries.
    pub fn new() -> (inner: Inner<S>)
        ensures
            inner@ == InnerView::<S>::none(),
            inner@.in_sync(),
    {
        let inner = Inner { tasks: HashMap::new(), by_name: StringHashMap::new() };
        proof {
            assert(inner@ =~= InnerView::<S>::none());
        }
        inner
    }

    /// Number of members, in both phases.
    pub fn len(&self) -> (len: usize)
        ensures
            len == self@.tasks.len(),
    {
        self.tasks.len()
    }

    /// Whether there is no member.
    pub fn is_empty(&self) -> (empty: bool)
        ensures
            empty == (self@.tasks.dom() == Set::<u64>::empty()),
    {
        let empty = self.tasks.is_empty();
        proof {
            if empty {
                assert(self@.tasks.dom() =~= Set::<u64>::empty());
            }
        }
        empty
    }

    /// Whether an identity is a member, in either phase.
    pub fn contains(&self, id: TaskId) -> (member: bool)
        ensures
            member == self@.contains(id),
    {
        self.tasks.contains_key(&id.raw)
    }

    /// Identity that holds a name, in either phase.
    pub fn owner_of(&self, name: &str) -> (owner: Option<TaskId>)
        ensures
            owner == self@.owner_of(name@),
    {
        match self.by_name.get(name) {
            Some(raw) => Some(TaskId { raw: *raw }),
            None => None,
        }
    }

    /// Entry of a member.
    pub fn get(&self, id: TaskId) -> (entry: Option<&Entry<S>>)
        ensures
            match entry {
                Some(entry) => self@.contains(id) && *entry == self@.entry(id),
                None => !self@.contains(id),
            },
    {
        self.tasks.get(&id.raw)
    }

    /// Identities of all members, each once, in no particular order.
    pub fn ids(&self) -> (ids: Vec<u64>)
        ensures
            lists_keys(ids@, self@.tasks),
    {
        map_keys(&self.tasks)
    }

    /// Adds an entry to both indexes.
    pub fn index(&mut self, id: TaskId, entry: Entry<S>)
        requires
            old(self)@.in_sync(),
            !old(self)@.contains(id),
            old(self)@.owner_of(entry.name@) is None,
        ensures
            final(self)@ == old(self)@.indexed(id, entry),
            final(self)@.in_sync(),
    {
        let name = entry.name.clone();
        self.tasks.insert(id.raw, entry);
        self.by_name.insert(name, id.raw);
        proof {
            assert(self@ =~= old(self)@.indexed(id, entry));
            assert forall|other: u64| #[trigger] self@.tasks.contains_key(other) implies {
                &&& self@.by_name.contains_key(self@.tasks[other].name@)
                &&& self@.by_name[self@.tasks[other].name@] == other
            } by {
                if other != id.raw {
                    assert(old(self)@.tasks.contains_key(other));
                    assert(old(self)@.by_name.contains_key(old(self)@.tasks[other].name@));
                }
            }
            assert forall|key: Seq<char>| #[trigger] self@.by_name.contains_key(key) implies {
                &&& self@.tasks.contains_key(self@.by_name[key])
                &&& self@.tasks[self@.by_name[key]].name@ == key
            } by {
                if key != entry.name@ {
                    assert(old(self)@.by_name.contains_key(key));
                }
            }
        }
    }

    /// Changes one entry from registered to removing.
    ///
    /// The winning caller receives the only actor handle. Both indexes keep the entry until that
    /// caller finishes the removal.
    pub fn claim_registered(&mut self, id: TaskId) -> (claim: Option<
        (String, Handle<S>, RemovalCompletion),
    >)
        requires
            old(self)@.in_sync(),
        ensures
            claim == old(self)@.claim(id),
            final(self)@ == old(self)@.claimed(id),
            final(self)@.in_sync(),
            final(self)@.tasks.dom() == old(self)@.tasks.dom(),
    {
        let registered = match self.tasks.get(&id.raw) {
            Some(entry) => matches!(entry.state, EntryState::Registered(_)),
            None => false,
        };
        if !registered {
            return None;
        }
        match self.tasks.remove(&id.raw) {
            None => None,
            Some(entry) => match entry.state {
                EntryState::Removing { .. } => None,
                EntryState::Registered(handle) => {
                    let completion = handle.completion;
                    let name = entry.name.clone();
                    self.tasks.insert(
                        id.raw,
                        Entry {
                            name: entry.name,
                            activity: entry.activity,
                            state: EntryState::Removing { completion },
                        },
                    );
                    proof {
                        assert(self@ =~= old(self)@.claimed(id));
                        lemma_phase_change_in_sync(old(self)@, id, self@);
                        assert(self@.tasks.dom() =~= old(self)@.tasks.dom());
                    }
                    Some((name, handle, completion))
                },
            },
        }
    }

    /// Removes a removing entry from both indexes.
    pub fn remove_removing(&mut self, id: TaskId) -> (removed: Option<(String, RemovalCompletion)>)
        requires
            old(self)@.in_sync(),
        ensures
            final(self)@.in_sync(),
            old(self)@.is_removing(id) ==> {
                &&& removed == Some(
                    (old(self)@.entry(id).name, old(self)@.entry(id).state->completion),
                )
                &&& final(self)@ == old(self)@.without(id)
            },
            !old(self)@.is_removing(id) ==> removed is None && final(self)@ == old(self)@,
    {
        let removing = match self.tasks.get(&id.raw) {
            Some(entry) => matches!(entry.state, EntryState::Removing { .. }),
            None => false,
        };
        if !removing {
            return None;
        }
        match self.tasks.remove(&id.raw) {
            None => None,
            Some(entry) => match entry.state {
                EntryState::Registered(_) => None,
                EntryState::Removing { completion } => {
                    let owned_here = match self.by_name.get(entry.name.as_str()) {
                        Some(owner) => *owner == id.raw,
                        None => false,
                    };
                    if owned_here {
                        self.by_name.remove(entry.name.as_str());
                    }
                    proof {
                        let before = old(self)@;
                        assert(before.tasks.contains_key(id.raw));
                        assert(self@ =~= before.without(id));
                        lemma_without_in_sync(before, id);
                    }
                    Some((entry.name, completion))
                },
            },
        }
    }

    /// Stores the task of a freshly spawned actor in its registered entry.
    pub fn fill_join_slot(&mut self, id: TaskId, join: ActorTask<S>) -> (unused:
        Option<ActorTask<S>>)
        requires
            old(self)@.in_sync(),
        ensures
            final(self)@.in_sync(),
            old(self)@.is_registered(id) ==> unused is None && final(self)@ == (InnerView {
                tasks: old(self)@.tasks.insert(
                    id.raw,
                    Entry {
                        state: EntryState::Registered(
                            Handle {
                                join: ActorHandle {
                                    join_slot: Some(join),
                                    ..old(self)@.entry(id).state->Registered_0.join
                                },
                                ..old(self)@.entry(id).state->Registered_0
                            },
                        ),
                        ..old(self)@.entry(id)
                    },
                ),
                ..old(self)@
            }),
            !old(self)@.is_registered(id) ==> unused == Some(join) && final(self)@ == old(self)@,
    {
        let registered = match self.tasks.get(&id.raw) {
            Some(entry) => matches!(entry.state, EntryState::Registered(_)),
            None => false,
        };
        if !registered {
            return Some(join);
        }
        match self.tasks.remove(&id.raw) {
            None => Some(join),
            Some(entry) => match entry.state {
                EntryState::Removing { .. } => Some(join),
                EntryState::Registered(handle) => {
                    let mut handle = handle;
                    handle.join.fill_join_slot(join);
                    self.tasks.insert(
                        id.raw,
                        Entry {
                            name: entry.name,
                            activity: entry.activity,
                            state: EntryState::Registered(handle),
                        },
                    );
                    proof {
                        assert(self@ =~= (InnerView {
                            tasks: old(self)@.tasks.insert(id.raw, self@.entry(id)),
                            ..old(self)@
                        }));
                        lemma_phase_change_in_sync(old(self)@, id, self@);
                    }
                    None
                },
            },
        }
    }

    /// Records whether a member is inside an attempt.
    pub fn set_activity(&mut self, id: TaskId, active: bool)
        requires
            old(self)@.in_sync(),
        ensures
            final(self)@ == old(self)@.with_activity(id, active),
            final(self)@.in_sync(),
    {
        if let Some(entry) = self.tasks.remove(&id.raw) {
            self.tasks.insert(id.raw, Entry { activity: active, ..entry });
            proof {
                assert(self@ =~= old(self)@.with_activity(id, active));
                lemma_phase_change_in_sync(old(self)@, id, self@);
            }
        } else {
            proof {
                assert(self@ =~= old(self)@);
            }
        }
    }
}

/// Replacing an entry by one of the same name keeps the indexes in sync.
proof fn lemma_phase_change_in_sync<S>(before: InnerView<S>, id: TaskId, after: InnerView<S>)
    requires
        before.in_sync(),
        before.contains(id),
        after.by_name == before.by_name,
        after.contains(id),
        after.entry(id).name == before.entry(id).name,
        after.tasks == before.tasks.insert(id.raw, after.entry(id)),
    ensures
        after.in_sync(),
{
    assert forall|other: u64| #[trigger] after.tasks.contains_key(other) implies {
        &&& after.by_name.contains_key(after.tasks[other].name@)
        &&& after.by_name[after.tasks[other].name@] == other
    } by {
        assert(before.tasks.contains_key(other));
    }
    assert forall|key: Seq<char>| #[trigger] after.by_name.contains_key(key) implies {
        &&& after.tasks.contains_key(after.by_name[key])
        &&& after.tasks[after.by_name[key]].name@ == key
    } by {
        assert(before.by_name.contains_key(key));
    }
}

/// Removing an entry from both indexes keeps them in sync.
proof fn lemma_without_in_sync<S>(before: InnerView<S>, id: TaskId)
    requires
        before.in_sync(),
        before.contains(id),
    ensures
        before.without(id).in_sync(),
{
    let after = before.without(id);
    assert(before.tasks.contains_key(id.raw));
    assert forall|other: u64| #[trigger] after.tasks.contains_key(other) implies {
        &&& after.by_name.contains_key(after.tasks[other].name@)
        &&& after.by_name[after.tasks[other].name@] == other
    } by {
        assert(before.tasks.contains_key(other));
    }
    assert forall|key: Seq<char>| #[trigger] after.by_name.contains_key(key) implies {
        &&& after.tasks.contains_key(after.by_name[key])
        &&& after.tasks[after.by_name[key]].name@ == key
    } by {
        assert(before.by_name.contains_key(key));
    }
}

} // verus!
