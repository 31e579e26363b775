//! Membership and physical attempt activity.
//!
//! Membership includes registered and removing entries. A force-aborted attempt can remain active
//! after the registry becomes empty. Activity queries combine both sources because they answer
//! whether a task is physically in an attempt.

use vstd::prelude::*;

use super::reaper::ReaperActivity;
use super::{lemma_kept_phases_valid, Registry, RegistryView};
use crate::identity::TaskId;
use crate::order::{ascending, has_name, insert_name, names_ascending, sorted};

verus! {

impl<S> RegistryView<S> {
    /// Whether some member under a name is inside an attempt.
    pub open spec fn member_alive(self, name: Seq<char>) -> bool {
        exists|id: u64| #[trigger]
            self.state.tasks.contains_key(id) && self.state.tasks[id].name@ == name
                && self.state.tasks[id].activity
    }

    /// Whether a name still owns a physical attempt.
    pub open spec fn alive(self, name: Seq<char>) -> bool {
        self.member_alive(name) || self.reaper.alive(name)
    }
}

impl<S> Registry<S> {
    /// Registered and removing tasks as `(identity, name)` pairs, sorted by identity.
    pub fn list(&self) -> (tasks: Vec<(TaskId, String)>)
        requires
            self@.valid(),
        ensures
            tasks@.len() == self@.state.tasks.len(),
            forall|i: int, j: int|
                #![trigger tasks@[i], tasks@[j]]
                0 <= i < j < tasks@.len() ==> tasks@[i].0.raw < tasks@[j].0.raw,
            forall|i: int|
                0 <= i < tasks@.len() ==> self@.state.contains((#[trigger] tasks@[i]).0)
                    && tasks@[i].1 == self@.state.entry(tasks@[i].0).name,
            forall|id: TaskId| #[trigger]
                self@.state.contains(id) ==> exists|i: int|
                    0 <= i < tasks@.len() && (#[trigger] tasks@[i]).0 == id,
    {
        let ids = self.state.ids();
        let ordered = sorted(&ids);
        let mut tasks: Vec<(TaskId, String)> = Vec::new();
        let mut i: usize = 0;
        while i < ordered.len()
            invariant
                i <= ordered@.len(),
                ascending(ordered@),
                forall|id: u64| #[trigger]
                    ordered@.contains(id) ==> self@.state.tasks.contains_key(id),
                tasks@.len() == i,
                self.state@ == self@.state,
                forall|j: int| 0 <= j < i ==> (#[trigger] tasks@[j]).0.raw == ordered@[j],
                forall|j: int|
                    0 <= j < i ==> self@.state.contains((#[trigger] tasks@[j]).0) && tasks@[j].1
                        == self@.state.entry(tasks@[j].0).name,
            decreases ordered@.len() - i,
        {
            let id = TaskId { raw: ordered[i] };
            proof {
                assert(ordered@.contains(ordered@[i as int]));
            }
            if let Some(entry) = self.state.get(id) {
                tasks.push((id, entry.name.clone()));
            }
            i = i + 1;
        }
        proof {
            ids@.unique_seq_to_set();
            assert(ids@.to_set().len() == self@.state.tasks.len());
            assert forall|a: int, b: int|
                #![trigger tasks@[a], tasks@[b]]
                0 <= a < b < tasks@.len() implies tasks@[a].0.raw < tasks@[b].0.raw by {
                assert(ordered@[a] < ordered@[b]);
            }
            assert forall|id: TaskId| #[trigger] self@.state.contains(id) implies exists|k: int|
                0 <= k < tasks@.len() && (#[trigger] tasks@[k]).0 == id by {
                assert(ids@.to_set().contains(id.raw));
                assert(ordered@.contains(id.raw));
                let k = choose|k: int| 0 <= k < ordered@.len() && ordered@[k] == id.raw;
                assert(tasks@[k].0 == id);
            }
        }
        tasks
    }

    /// Whether a name still owns a physical task attempt.
    ///
    /// This checks registry activity and force-aborted attempts that remain active after removal.
    pub fn is_alive(&self, name: &String) -> (alive: bool)
        requires
            self@.valid(),
        ensures
            alive == self@.alive(name@),
    {
        let registered = match self.state.owner_of(name.as_str()) {
            Some(id) => match self.state.get(id) {
                Some(entry) => entry.activity,
                None => false,
            },
            None => false,
        };
        proof {
            if registered {
                let id = self@.state.by_name[name@];
                assert(self@.state.by_name.contains_key(name@));
                assert(self@.state.tasks.contains_key(id));
            }
            if self@.member_alive(name@) {
                let id = choose|id: u64| #[trigger]
                    self@.state.tasks.contains_key(id) && self@.state.tasks[id].name@ == name@
                        && self@.state.tasks[id].activity;
                assert(self@.state.by_name[name@] == id);
            }
        }
        registered || self.actors.is_alive(name)
    }

    /// Whether an identity is registered or removing.
    pub fn contains(&self, id: TaskId) -> (member: bool)
        ensures
            member == self@.state.contains(id),
    {
        self.state.contains(id)
    }

    /// Identity behind a name, including a removing entry.
    pub fn id_for_name(&self, name: &str) -> (owner: Option<TaskId>)
        ensures
            owner == self@.state.owner_of(name@),
    {
        self.state.owner_of(name)
    }

    /// Whether no tasks are registered or removing.
    pub fn is_empty(&self) -> (empty: bool)
        ensures
            empty == (self@.state.tasks.dom() == Set::<u64>::empty()),
    {
        self.state.is_empty()
    }

    /// Records whether the actor of a task is inside an attempt, for members and for force-aborted
    /// attempts alike.
    pub fn set_activity(&mut self, id: TaskId, active: bool)
        requires
            old(self)@.valid(),
        ensures
            final(self)@.valid(),
            final(self)@ == (RegistryView {
                state: old(self)@.state.with_activity(id, active),
                reaper: old(self)@.reaper.with_activity(id, active),
                ..old(self)@
            }),
    {
        self.state.set_activity(id, active);
        self.actors.set_activity(id, active);
        proof {
            lemma_kept_phases_valid(old(self)@, self@);
        }
    }

    /// Sorted names that still own a physical task attempt, each once.
    ///
    /// This combines registry activity with force-aborted attempts that remain active after
    /// removal.
    pub fn alive_snapshot(&self) -> (names: Vec<String>)
        ensures
            names_ascending(names@),
            forall|name: Seq<char>| #[trigger] has_name(names@, name) <==> self@.alive(name),
    {
        let mut names: Vec<String> = Vec::new();
        let ids = self.state.ids();
        let ghost view = self@;
        let ghost keys = ids@;
        proof {
            assert forall|j: int| 0 <= j < keys.len() implies view.state.tasks.contains_key(
                #[trigger] keys[j],
            ) by {
                assert(keys.to_set().contains(keys[j]));
            }
        }
        let mut i: usize = 0;
        while i < ids.len()
            invariant
                i <= ids@.len(),
                keys == ids@,
                self.state@ == view.state,
                names_ascending(names@),
                forall|j: int| 0 <= j < keys.len() ==> view.state.tasks.contains_key(
                    #[trigger] keys[j],
                ),
                forall|name: Seq<char>| #[trigger]
                    has_name(names@, name) <==> alive_upto(view, keys, i as int, name),
            decreases ids@.len() - i,
        {
            let ghost before = names@;
            if let Some(entry) = self.state.get(TaskId { raw: ids[i] }) {
                if entry.activity {
                    insert_name(&mut names, entry.name.clone());
                }
            }
            proof {
                assert forall|name: Seq<char>| #[trigger] has_name(names@, name) <==> alive_upto(
                    view,
                    keys,
                    i + 1,
                    name,
                ) by {
                    assert(view.state.tasks.contains_key(keys[i as int]));
                    assert(has_name(before, name) <==> alive_upto(view, keys, i as int, name));
                    if alive_upto(view, keys, i as int, name) {
                        let j = choose|j: int|
                            0 <= j < i && #[trigger] alive_at(view, keys[j], name);
                        assert(alive_at(view, keys[j], name));
                    }
                    if alive_at(view, keys[i as int], name) {
                        assert(alive_upto(view, keys, i + 1, name));
                    }
                    if alive_upto(view, keys, i + 1, name) {
                        let j = choose|j: int|
                            0 <= j < i + 1 && #[trigger] alive_at(view, keys[j], name);
                        if j < i {
                            assert(alive_upto(view, keys, i as int, name));
                        }
                    }
                }
            }
            i = i + 1;
        }
        proof {
            assert forall|name: Seq<char>| #[trigger] has_name(names@, name)
                <==> view.member_alive(name) by {
                if view.member_alive(name) {
                    let id = choose|id: u64| #[trigger]
                        view.state.tasks.contains_key(id) && view.state.tasks[id].name@ == name
                            && view.state.tasks[id].activity;
                    assert(keys.to_set().contains(id));
                    let j = choose|j: int| 0 <= j < keys.len() && keys[j] == id;
                    assert(alive_at(view, keys[j], name));
                    assert(alive_upto(view, keys, keys.len() as int, name));
                }
                if alive_upto(view, keys, keys.len() as int, name) {
                    let j = choose|j: int|
                        0 <= j < keys.len() && #[trigger] alive_at(view, keys[j], name);
                    assert(view.state.tasks.contains_key(keys[j]));
                }
            }
        }
        let reaped = self.actors.alive_names();
        let ghost members = names@;
        let mut k: usize = 0;
        while k < reaped.len()
            invariant
                k <= reaped@.len(),
                names_ascending(names@),
                forall|name: Seq<char>| #[trigger]
                    has_name(names@, name) <==> has_name(members, name) || has_name(
                        reaped@.take(k as int),
                        name,
                    ),
            decreases reaped@.len() - k,
        {
            let ghost before = names@;
            insert_name(&mut names, reaped[k].clone());
            proof {
                let taken = reaped@.take(k as int);
                let more = reaped@.take(k + 1);
                assert forall|name: Seq<char>| #[trigger] has_name(names@, name) <==> has_name(
                    members,
                    name,
                ) || has_name(more, name) by {
                    assert(has_name(before, name) <==> has_name(members, name) || has_name(
                        taken,
                        name,
                    ));
                    if has_name(taken, name) {
                        let j = choose|j: int|
                            0 <= j < taken.len() && (#[trigger] taken[j])@ == name;
                        assert(more[j]@ == name);
                    }
                    if name == reaped@[k as int]@ {
                        assert(more[k as int]@ == name);
                    }
                    if has_name(more, name) {
                        let j = choose|j: int| 0 <= j < more.len() && (#[trigger] more[j])@ == name;
                        if j < k {
                            assert(taken[j]@ == name);
                        }
                    }
                }
            }
            k = k + 1;
        }
        proof {
            assert(reaped@.take(k as int) =~= reaped@);
            assert forall|name: Seq<char>| #[trigger] has_name(names@, name) <==> self@.alive(
                name,
            ) by {
                lemma_reaped_names(view, name);
                assert(has_name(members, name) <==> view.member_alive(name));
            }
        }
        names
    }
}

/// Whether one member under a name is inside an attempt.
spec fn alive_at<S>(view: RegistryView<S>, id: u64, name: Seq<char>) -> bool {
    view.state.tasks[id].name@ == name && view.state.tasks[id].activity
}

/// Whether one of the first `n` members under a name is inside an attempt.
spec fn alive_upto<S>(view: RegistryView<S>, keys: Seq<u64>, n: int, name: Seq<char>) -> bool {
    exists|j: int| 0 <= j < n && #[trigger] alive_at(view, keys[j], name)
}

/// What a filter keeps comes from the sequence.
proof fn lemma_filter_from<A>(s: Seq<A>, pred: spec_fn(A) -> bool, k: int)
    requires
        0 <= k < s.filter(pred).len(),
    ensures
        s.contains(s.filter(pred)[k]),
    decreases s.len(),
{
    reveal(Seq::filter);
    let rest = s.drop_last();
    if k < rest.filter(pred).len() {
        lemma_filter_from(rest, pred, k);
        let i = choose|i: int| 0 <= i < rest.len() && rest[i] == rest.filter(pred)[k];
        assert(s[i] == s.filter(pred)[k]);
    } else {
        assert(s[s.len() - 1] == s.filter(pred)[k]);
    }
}

/// The names that the reaper lists are those of its active attempts.
proof fn lemma_reaped_names<S>(view: RegistryView<S>, name: Seq<char>)
    ensures
        has_name(
            view.reaper.activities.filter(|activity: ReaperActivity| activity.activity).map_values(
                |activity: ReaperActivity| activity.name,
            ),
            name,
        ) <==> view.reaper.alive(name),
{
    let active = |activity: ReaperActivity| activity.activity;
    let name_of = |activity: ReaperActivity| activity.name;
    let all = view.reaper.activities;
    let kept = all.filter(active);
    let names = kept.map_values(name_of);
    broadcast use vstd::seq_lib::group_filter_ensures;

    if has_name(names, name) {
        let k = choose|k: int| 0 <= k < names.len() && (#[trigger] names[k])@ == name;
        let item = kept[k];
        assert(active(item));
        lemma_filter_from(all, active, k);
        let i = choose|i: int| 0 <= i < all.len() && all[i] == item;
        assert(all[i].name@ == name);
    }
    if view.reaper.alive(name) {
        let i = choose|i: int|
            0 <= i < all.len() && (#[trigger] all[i]).name@ == name && all[i].activity;
        assert(active(all[i]));
        assert(kept.contains(all[i]));
        let k = choose|k: int| 0 <= k < kept.len() && kept[k] == all[i];
        assert(names[k]@ == name);
    }
}

} // verus!
