//! What the queries say about a task in each phase of its life.

use vstd::prelude::*;

use super::{Registry, RegistryView};
use super::reaper::ReaperView;
use super::terminal::TailView;
use crate::identity::TaskId;
use crate::order::{has_name, law_name_order_is_strict_and_total, names_ascending};

verus! {

/// Whether some member under a name is recorded as inside an attempt, registered or not.
pub open spec fn member_runs<S>(view: RegistryView<S>, name: Seq<char>) -> bool {
    exists|id: u64| #[trigger]
        view.state.tasks.contains_key(id) && view.state.tasks[id].activity
            && view.state.tasks[id].name@ == name
}

/// Whether some force-aborted attempt under a name is recorded as running.
pub open spec fn attempt_runs<S>(reaper: ReaperView<S>, name: Seq<char>) -> bool {
    exists|i: int|
        0 <= i < reaper.activities.len() && (#[trigger] reaper.activities[i]).activity
            && reaper.activities[i].name@ == name
}

/// A name is alive exactly when a task under it is inside an attempt: a member in either phase, or
/// an attempt that outlived its removal.
pub proof fn law_alive_means_a_running_attempt<S>(view: RegistryView<S>, name: Seq<char>)
    ensures
        view.alive(name) <==> member_runs(view, name) || attempt_runs(view.reaper, name),
{
    if member_runs(view, name) {
        let id = choose|id: u64| #[trigger]
            view.state.tasks.contains_key(id) && view.state.tasks[id].activity
                && view.state.tasks[id].name@ == name;
        assert(view.state.tasks.contains_key(id));
        assert(view.member_alive(name));
    }
    if view.member_alive(name) {
        let id = choose|id: u64| #[trigger]
            view.state.tasks.contains_key(id) && view.state.tasks[id].name@ == name
                && view.state.tasks[id].activity;
        assert(view.state.tasks.contains_key(id));
        assert(member_runs(view, name));
    }
    if attempt_runs(view.reaper, name) {
        let i = choose|i: int|
            0 <= i < view.reaper.activities.len() && (
            #[trigger] view.reaper.activities[i]).activity && view.reaper.activities[i].name@
                == name;
        assert(view.reaper.activities[i].name@ == name);
    }
    if view.reaper.alive(name) {
        let i = choose|i: int|
            0 <= i < view.reaper.activities.len() && (#[trigger] view.reaper.activities[i]).name@
                == name && view.reaper.activities[i].activity;
        assert(view.reaper.activities[i].activity);
    }
}

/// A removal claim changes no liveness: a task that was inside an attempt still is, and nobody else
/// begins to be.
pub proof fn law_a_claim_changes_no_liveness<S>(view: RegistryView<S>, id: TaskId, name: Seq<char>)
    ensures
        view.claimed(id).alive(name) <==> view.alive(name),
        member_runs(view, name) ==> view.claimed(id).alive(name),
{
    let after = view.claimed(id);
    law_alive_means_a_running_attempt(view, name);
    law_alive_means_a_running_attempt(after, name);
    if member_runs(view, name) {
        let other = choose|other: u64| #[trigger]
            view.state.tasks.contains_key(other) && view.state.tasks[other].activity
                && view.state.tasks[other].name@ == name;
        assert(after.state.tasks.contains_key(other));
        assert(member_runs(after, name));
    }
    if member_runs(after, name) {
        let other = choose|other: u64| #[trigger]
            after.state.tasks.contains_key(other) && after.state.tasks[other].activity
                && after.state.tasks[other].name@ == name;
        assert(view.state.tasks.contains_key(other));
        assert(member_runs(view, name));
    }
}

/// What an actor records is what the query answers: a member inside an attempt makes its name alive
/// at once, and when it leaves the attempt the name is alive only through somebody else.
pub proof fn law_recorded_activity_is_answered<S>(view: RegistryView<S>, id: TaskId)
    requires
        view.valid(),
        view.state.tasks.contains_key(id.raw),
    ensures
        ({
            let name = view.state.tasks[id.raw].name@;
            let running = RegistryView {
                state: view.state.with_activity(id, true),
                reaper: view.reaper.with_activity(id, true),
                ..view
            };
            let idle = RegistryView {
                state: view.state.with_activity(id, false),
                reaper: view.reaper.with_activity(id, false),
                ..view
            };
            &&& running.alive(name)
            &&& idle.alive(name) ==> exists|i: int|
                0 <= i < view.reaper.activities.len() && (
                #[trigger] view.reaper.activities[i]).activity
                    && view.reaper.activities[i].name@ == name && view.reaper.activities[i].id
                    != id
            &&& forall|other: Seq<char>|
                other != name ==> (#[trigger] running.member_alive(other) <==> view.member_alive(
                    other,
                ))
        }),
{
    let name = view.state.tasks[id.raw].name@;
    let running = RegistryView {
        state: view.state.with_activity(id, true),
        reaper: view.reaper.with_activity(id, true),
        ..view
    };
    let idle = RegistryView {
        state: view.state.with_activity(id, false),
        reaper: view.reaper.with_activity(id, false),
        ..view
    };
    law_alive_means_a_running_attempt(running, name);
    law_alive_means_a_running_attempt(idle, name);
    assert(running.state.tasks.contains_key(id.raw));
    assert(member_runs(running, name));
    if member_runs(idle, name) {
        let other = choose|other: u64| #[trigger]
            idle.state.tasks.contains_key(other) && idle.state.tasks[other].activity
                && idle.state.tasks[other].name@ == name;
        assert(view.state.tasks.contains_key(other));
        assert(view.state.by_name[name] == other);
        assert(view.state.by_name[name] == id.raw);
    }
    if attempt_runs(idle.reaper, name) {
        let i = choose|i: int|
            0 <= i < idle.reaper.activities.len() && (
            #[trigger] idle.reaper.activities[i]).activity && idle.reaper.activities[i].name@
                == name;
        assert(view.reaper.activities[i].activity);
    }
    assert forall|other: Seq<char>| other != name implies (#[trigger] running.member_alive(other)
        <==> view.member_alive(other)) by {
        if running.member_alive(other) {
            let member = choose|member: u64| #[trigger]
                running.state.tasks.contains_key(member) && running.state.tasks[member].name@
                    == other && running.state.tasks[member].activity;
            assert(view.state.tasks.contains_key(member));
        }
        if view.member_alive(other) {
            let member = choose|member: u64| #[trigger]
                view.state.tasks.contains_key(member) && view.state.tasks[member].name@ == other
                    && view.state.tasks[member].activity;
            assert(running.state.tasks.contains_key(member));
        }
    }
}

/// The snapshot and the single query agree: a name is listed exactly when it is alive, and a list
/// of names in order holds none twice.
pub proof fn law_the_snapshot_lists_each_running_name_once<S>(
    view: RegistryView<S>,
    names: Seq<String>,
    i: int,
    j: int,
)
    requires
        names_ascending(names),
        forall|name: Seq<char>| #[trigger] has_name(names, name) <==> view.alive(name),
        0 <= i < j < names.len(),
    ensures
        names[i]@ != names[j]@,
        member_runs(view, names[i]@) || attempt_runs(view.reaper, names[i]@),
{
    assert(has_name(names, names[i]@));
    law_alive_means_a_running_attempt(view, names[i]@);
    law_name_order_is_strict_and_total(names[i]@, names[j]@);
}

/// A committed removal takes its own task out of the queries, and no other: who else is a member,
/// under which name, and who is inside an attempt, stays as it was.
pub proof fn law_a_committed_removal_hides_only_its_task<S>(
    view: RegistryView<S>,
    id: TaskId,
    tail: TailView<S>,
)
    requires
        view.valid(),
        view.state.tasks.contains_key(id.raw),
    ensures
        ({
            let after = (RegistryView { state: view.state.without(id), ..view }).finalized(tail);
            &&& !after.state.tasks.contains_key(id.raw)
            &&& !after.state.by_name.contains_key(view.state.tasks[id.raw].name@)
            &&& forall|other: u64|
                other != id.raw ==> (#[trigger] after.state.tasks.contains_key(other)
                    <==> view.state.tasks.contains_key(other))
            &&& forall|other: u64|
                other != id.raw && #[trigger] view.state.tasks.contains_key(other) ==> {
                    &&& after.state.tasks[other] == view.state.tasks[other]
                    &&& after.state.by_name.contains_key(view.state.tasks[other].name@)
                    &&& after.state.by_name[view.state.tasks[other].name@] == other
                }
        }),
{
    let after = (RegistryView { state: view.state.without(id), ..view }).finalized(tail);
    assert forall|other: u64| other != id.raw && #[trigger] view.state.tasks.contains_key(
        other,
    ) implies {
        &&& after.state.tasks[other] == view.state.tasks[other]
        &&& after.state.by_name.contains_key(view.state.tasks[other].name@)
        &&& after.state.by_name[view.state.tasks[other].name@] == other
    } by {
        assert(view.state.by_name[view.state.tasks[other].name@] == other);
        assert(view.state.by_name[view.state.tasks[id.raw].name@] == id.raw);
    }
}

/// The queries answer about members in both phases: a task is listed, contained, and found by name
/// from its admission to its committed removal, and alive while it is inside an attempt.
pub proof fn law_members_are_found_in_both_phases<S>(
    registry: Registry<S>,
    id: TaskId,
    name: String,
    listed: Vec<(TaskId, String)>,
    contained: bool,
    alive: bool,
    empty: bool,
    names: Vec<String>,
)
    requires
        registry@.valid(),
        registry@.state.tasks.contains_key(id.raw),
        registry@.state.tasks[id.raw].name == name,
        call_ensures(Registry::<S>::list, (&registry,), listed),
        call_ensures(Registry::<S>::contains, (&registry, id), contained),
        call_ensures(Registry::<S>::is_alive, (&registry, &name), alive),
        call_ensures(Registry::<S>::alive_snapshot, (&registry,), names),
        call_ensures(Registry::<S>::is_empty, (&registry,), empty),
    ensures
        listed@.contains((id, name)),
        listed@.len() == registry@.state.tasks.len(),
        contained,
        !empty,
        registry@.state.tasks[id.raw].activity ==> alive && has_name(names@, name@),
        alive <==> member_runs(registry@, name@) || attempt_runs(registry@.reaper, name@),
        alive <==> has_name(names@, name@),
{
    assert(registry@.state.contains(id));
    let i = choose|i: int| 0 <= i < listed@.len() && (#[trigger] listed@[i]).0 == id;
    assert(listed@[i] == (id, name));
    law_alive_means_a_running_attempt(registry@, name@);
    if registry@.state.tasks[id.raw].activity {
        assert(member_runs(registry@, name@));
    }
}

} // verus!
