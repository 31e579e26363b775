//! What the reaper promises about a force-aborted attempt, whatever arrives and in which order.

use vstd::prelude::*;

use super::actor::AttemptReservation;
use super::completion::RemovalCompletion;
use super::effects::EffectView;
use super::reaper::{registered, ReaperActivity, ReaperRecord, ReaperView, TerminalReleases};
use crate::deferred_drop::DropBundle;
use crate::identity::TaskId;
use crate::search::{lemma_first_is, lemma_first_where};

verus! {

/// Whether no two records belong to the same attempt.
pub open spec fn attempts_distinct<S>(view: ReaperView<S>) -> bool {
    forall|i: int, j: int|
        #![trigger view.records[i], view.records[j]]
        0 <= i < j < view.records.len() ==> view.records[j].id != view.records[i].id
            || view.records[j].release != view.records[i].release
}

/// Whether every record holds exactly one name reservation, its own.
pub open spec fn names_tracked<S>(view: ReaperView<S>) -> bool {
    &&& view.activities.len() == view.records.len()
    &&& forall|i: int|
        0 <= i < view.records.len() ==> {
            &&& (#[trigger] view.activities[i]).name@ == view.records[i].name@
            &&& view.activities[i].id == view.records[i].id
            &&& view.activities[i].release == view.records[i].release
        }
}

/// The reaper as its callers keep it: one record and one reservation per attempt.
pub open spec fn tracked_attempts<S>(view: ReaperView<S>) -> bool {
    attempts_distinct(view) && names_tracked(view)
}

/// Whether some record belongs to an attempt.
pub open spec fn knows_attempt<S>(
    view: ReaperView<S>,
    id: TaskId,
    release: RemovalCompletion,
) -> bool {
    exists|i: int|
        0 <= i < view.records.len() && (#[trigger] view.records[i]).id == id
            && view.records[i].release == release
}

/// Whether the attempt still waits: its record is there and has no physical output.
pub open spec fn awaits_exit<S>(
    view: ReaperView<S>,
    name: Seq<char>,
    id: TaskId,
    release: RemovalCompletion,
) -> bool {
    exists|i: int|
        0 <= i < view.records.len() && (#[trigger] view.records[i]).id == id
            && view.records[i].release == release && view.records[i].name@ == name
            && view.records[i].physical is None
}

/// Filtering out the one reservation of an attempt removes its position.
proof fn lemma_filter_is_remove(
    activities: Seq<ReaperActivity>,
    index: int,
    name: Seq<char>,
    id: TaskId,
    release: RemovalCompletion,
)
    requires
        0 <= index < activities.len(),
        activities[index].released_with(name, id, release),
        forall|j: int|
            0 <= j < activities.len() && j != index ==> !(#[trigger] activities[j]).released_with(
                name,
                id,
                release,
            ),
    ensures
        activities.filter(|a: ReaperActivity| !a.released_with(name, id, release))
            == activities.remove(index),
    decreases activities.len(),
{
    let keep = |a: ReaperActivity| !a.released_with(name, id, release);
    reveal(Seq::filter);
    let rest = activities.drop_last();
    assert forall|j: int| 0 <= j < rest.len() implies rest[j] == activities[j] by {}
    if index == activities.len() - 1 {
        lemma_filter_keeps_all(rest, name, id, release);
        assert(activities.filter(keep) == rest.filter(keep));
        assert(activities.remove(index) =~= rest);
    } else {
        lemma_filter_is_remove(rest, index, name, id, release);
        assert(keep(activities.last()));
        assert(activities.filter(keep) == rest.filter(keep).push(activities.last()));
        assert(activities.remove(index) =~= rest.remove(index).push(activities.last()));
    }
}

/// Filtering keeps everything when no reservation belongs to the attempt.
proof fn lemma_filter_keeps_all(
    activities: Seq<ReaperActivity>,
    name: Seq<char>,
    id: TaskId,
    release: RemovalCompletion,
)
    requires
        forall|j: int|
            0 <= j < activities.len() ==> !(#[trigger] activities[j]).released_with(
                name,
                id,
                release,
            ),
    ensures
        activities.filter(|a: ReaperActivity| !a.released_with(name, id, release)) == activities,
    decreases activities.len(),
{
    let keep = |a: ReaperActivity| !a.released_with(name, id, release);
    reveal(Seq::filter);
    if activities.len() > 0 {
        let rest = activities.drop_last();
        assert forall|j: int| 0 <= j < rest.len() implies rest[j] == activities[j] by {}
        lemma_filter_keeps_all(rest, name, id, release);
        assert(keep(activities.last()));
        assert(rest.push(activities.last()) =~= activities);
    } else {
        assert(activities.filter(keep) =~= activities);
    }
}

/// Replacing a record by one of the same name and attempt keeps the reaper tracked.
proof fn lemma_replaced_tracked<S>(view: ReaperView<S>, index: int, record: ReaperRecord<S>)
    requires
        tracked_attempts(view),
        0 <= index < view.records.len(),
        record.id == view.records[index].id,
        record.release == view.records[index].release,
        record.name == view.records[index].name,
    ensures
        tracked_attempts(view.replaced(index, record)),
{
    let next = view.replaced(index, record);
    assert forall|i: int, j: int|
        #![trigger next.records[i], next.records[j]]
        0 <= i < j < next.records.len() implies !next.records[j].is_of(
        next.records[i].id,
        next.records[i].release,
    ) by {
        assert(!view.records[j].is_of(view.records[i].id, view.records[i].release));
    }
    assert forall|i: int| 0 <= i < next.records.len() implies (
    #[trigger] next.activities[i]).released_with(
        next.records[i].name@,
        next.records[i].id,
        next.records[i].release,
    ) by {
        assert(view.activities[i].released_with(
            view.records[i].name@,
            view.records[i].id,
            view.records[i].release,
        ));
    }
}

/// A record that leaves takes its own reservation along, and nothing else.
proof fn lemma_settled_tracked<S>(view: ReaperView<S>, index: int)
    requires
        tracked_attempts(view),
        0 <= index < view.records.len(),
    ensures
        tracked_attempts(view.settled(index)),
        view.records[index].is_complete() ==> {
            &&& view.settled(index).records == view.records.remove(index)
            &&& view.settled(index).activities == view.activities.remove(index)
        },
{
    let record = view.records[index];
    if record.is_complete() {
        assert forall|j: int|
            0 <= j < view.activities.len() && j != index implies !(
        #[trigger] view.activities[j]).released_with(record.name@, record.id, record.release) by {
            assert(view.activities[j].released_with(
                view.records[j].name@,
                view.records[j].id,
                view.records[j].release,
            ));
            if j < index {
                assert(!view.records[index].is_of(view.records[j].id, view.records[j].release));
            } else {
                assert(!view.records[j].is_of(view.records[index].id, view.records[index].release));
            }
        }
        assert(view.activities[index].released_with(record.name@, record.id, record.release));
        lemma_filter_is_remove(
            view.activities,
            index,
            record.name@,
            record.id,
            record.release,
        );
        let next = view.settled(index);
        assert(next.activities == view.activities.remove(index));
        assert forall|i: int, j: int|
            #![trigger next.records[i], next.records[j]]
            0 <= i < j < next.records.len() implies !next.records[j].is_of(
            next.records[i].id,
            next.records[i].release,
        ) by {
            let a = if i < index { i } else { i + 1 };
            let b = if j < index { j } else { j + 1 };
            assert(next.records[i] == view.records[a]);
            assert(next.records[j] == view.records[b]);
            assert(!view.records[b].is_of(view.records[a].id, view.records[a].release));
        }
        assert forall|i: int| 0 <= i < next.records.len() implies (
        #[trigger] next.activities[i]).released_with(
            next.records[i].name@,
            next.records[i].id,
            next.records[i].release,
        ) by {
            let a = if i < index { i } else { i + 1 };
            assert(next.records[i] == view.records[a]);
            assert(next.activities[i] == view.activities[a]);
            assert(view.activities[a].released_with(
                view.records[a].name@,
                view.records[a].id,
                view.records[a].release,
            ));
        }
    }
}

/// Registering a new attempt keeps one record and one reservation per attempt, and reserves the
/// name.
pub proof fn law_register_tracks_the_attempt<S>(
    view: ReaperView<S>,
    reservation: AttemptReservation,
    active: bool,
)
    requires
        tracked_attempts(view),
        !knows_attempt(view, reservation.id, reservation.physical_release),
    ensures
        tracked_attempts(registered(view, reservation, active)),
        registered(view, reservation, active).reserves(reservation.name@),
        awaits_exit(
            registered(view, reservation, active),
            reservation.name@,
            reservation.id,
            reservation.physical_release,
        ),
{
    let next = registered(view, reservation, active);
    let last = view.records.len() as int;
    assert forall|i: int, j: int|
        #![trigger next.records[i], next.records[j]]
        0 <= i < j < next.records.len() implies !next.records[j].is_of(
        next.records[i].id,
        next.records[i].release,
    ) by {
        if j < last {
            assert(!view.records[j].is_of(view.records[i].id, view.records[i].release));
        } else {
            assert(!view.records[i].is_of(reservation.id, reservation.physical_release));
        }
    }
    assert forall|i: int| 0 <= i < next.records.len() implies (
    #[trigger] next.activities[i]).released_with(
        next.records[i].name@,
        next.records[i].id,
        next.records[i].release,
    ) by {
        if i < last {
            assert(view.activities[i].released_with(
                view.records[i].name@,
                view.records[i].id,
                view.records[i].release,
            ));
        }
    }
    assert(next.activities[last].name@ == reservation.name@);
    assert(next.records[last].is_of(reservation.id, reservation.physical_release));
}

/// Physical output and terminal reports keep one record and one reservation per attempt.
pub proof fn law_arrivals_keep_attempts_tracked<S>(
    view: ReaperView<S>,
    id: TaskId,
    release: RemovalCompletion,
    output: u64,
    poisoned: bool,
    bundle: DropBundle<S>,
    releases: TerminalReleases,
)
    requires
        tracked_attempts(view),
    ensures
        tracked_attempts(view.after_physical(id, release, output, poisoned)),
        tracked_attempts(view.after_terminal(id, bundle, releases)),
{
    lemma_indexes(view, id, release, releases);
    if let Some(index) = view.physical_index(id, release) {
        let record = ReaperView::with_physical(view.records[index], output, poisoned);
        lemma_replaced_tracked(view, index, record);
        lemma_settled_tracked(view.replaced(index, record), index);
    }
    if let Some(index) = view.terminal_index(id, releases) {
        let record = ReaperView::with_terminal(view.records[index], bundle, releases);
        lemma_replaced_tracked(view, index, record);
        lemma_settled_tracked(view.replaced(index, record), index);
    }
}

/// The searches find records of the identity they look for.
proof fn lemma_indexes<S>(
    view: ReaperView<S>,
    id: TaskId,
    release: RemovalCompletion,
    releases: TerminalReleases,
)
    ensures
        view.physical_index(id, release) matches Some(index) ==> 0 <= index < view.records.len()
            && view.records[index].is_of(id, release),
        view.terminal_index(id, releases) matches Some(index) ==> 0 <= index < view.records.len()
            && view.records[index].id == id,
{
    lemma_first_where(view.records, |record: ReaperRecord<S>| record.is_of(id, release));
    lemma_first_where(
        view.records,
        |record: ReaperRecord<S>| record.id == id && releases.aliases(record.release),
    );
    lemma_first_where(
        view.records,
        |record: ReaperRecord<S>| record.id == id && record.terminal is None,
    );
    lemma_first_where(view.records, |record: ReaperRecord<S>| record.id == id);
}

/// A name is reserved exactly as long as a record under that name waits.
pub proof fn law_name_is_reserved_while_a_record_waits<S>(view: ReaperView<S>, name: Seq<char>)
    requires
        tracked_attempts(view),
    ensures
        view.reserves(name) <==> exists|i: int|
            0 <= i < view.records.len() && (#[trigger] view.records[i]).name@ == name,
{
    if view.reserves(name) {
        let i = choose|i: int|
            0 <= i < view.activities.len() && (#[trigger] view.activities[i]).name@ == name;
        assert(view.activities[i].released_with(
            view.records[i].name@,
            view.records[i].id,
            view.records[i].release,
        ));
        assert(view.records[i].name@ == name);
    }
    if exists|i: int| 0 <= i < view.records.len() && (#[trigger] view.records[i]).name@ == name {
        let i = choose|i: int|
            0 <= i < view.records.len() && (#[trigger] view.records[i]).name@ == name;
        assert(view.activities[i].released_with(
            view.records[i].name@,
            view.records[i].id,
            view.records[i].release,
        ));
        assert(view.activities[i].name@ == name);
    }
}

/// No terminal report releases an attempt that has not physically exited: its record and its name
/// stay, so no replacement can overlap it.
pub proof fn law_terminal_reports_keep_running_attempts<S>(
    view: ReaperView<S>,
    name: Seq<char>,
    attempt: TaskId,
    release: RemovalCompletion,
    id: TaskId,
    bundle: DropBundle<S>,
    releases: TerminalReleases,
)
    requires
        tracked_attempts(view),
        awaits_exit(view, name, attempt, release),
    ensures
        awaits_exit(view.after_terminal(id, bundle, releases), name, attempt, release),
        view.after_terminal(id, bundle, releases).reserves(name),
{
    let next = view.after_terminal(id, bundle, releases);
    lemma_indexes(view, id, release, releases);
    let i = choose|i: int|
        0 <= i < view.records.len() && (#[trigger] view.records[i]).is_of(attempt, release)
            && view.records[i].name@ == name && view.records[i].physical is None;
    match view.terminal_index(id, releases) {
        None => {
            assert(next.records[i].is_of(attempt, release));
        },
        Some(index) => {
            let record = ReaperView::with_terminal(view.records[index], bundle, releases);
            let replaced = view.replaced(index, record);
            lemma_replaced_tracked(view, index, record);
            lemma_settled_tracked(replaced, index);
            if view.records[index].terminal is None && record.is_complete() {
                let k = if i < index { i } else { i - 1 };
                assert(i != index);
                assert(next.records[k] == view.records[i]);
                assert(next.records[k].is_of(attempt, release));
            } else {
                assert(next.records[i].is_of(attempt, release));
            }
        },
    }
    law_arrivals_keep_attempts_tracked(view, id, release, 0, false, bundle, releases);
    law_name_is_reserved_while_a_record_waits(next, name);
}

/// Physical exit and terminal report of an attempt meet in either order: the reaper ends in the
/// same state and the same bundle is submitted once, before the same latches complete.
pub proof fn law_exit_and_report_commute<S>(
    view: ReaperView<S>,
    index: int,
    output: u64,
    poisoned: bool,
    bundle: DropBundle<S>,
    releases: TerminalReleases,
)
    requires
        tracked_attempts(view),
        0 <= index < view.records.len(),
        view.records[index].physical is None,
        view.records[index].terminal is None,
        releases.aliases(view.records[index].release),
    ensures
        ({
            let record = view.records[index];
            let exited = view.after_physical(record.id, record.release, output, poisoned);
            let reported = view.after_terminal(record.id, bundle, releases);
            let full = ReaperRecord {
                physical: Some(output),
                terminal: Some(bundle),
                terminal_releases: Some(releases),
                poisoned: record.poisoned || poisoned,
                ..record
            };
            &&& exited.after_terminal(record.id, bundle, releases) == reported.after_physical(
                record.id,
                record.release,
                output,
                poisoned,
            )
            &&& exited.after_terminal(record.id, bundle, releases).records == view.records.remove(
                index,
            )
            &&& exited.after_terminal(record.id, bundle, releases).activities
                == view.activities.remove(index)
            &&& view.physical_effects(record.id, record.release, output, poisoned) == Seq::<
                EffectView<S>,
            >::empty()
            &&& view.terminal_effects(record.id, bundle, releases) == Seq::<
                EffectView<S>,
            >::empty()
            &&& exited.terminal_effects(record.id, bundle, releases)
                == full.ready().release_effects()
            &&& reported.physical_effects(record.id, record.release, output, poisoned)
                == full.ready().release_effects()
        }),
{
    let record = view.records[index];
    let id = record.id;
    let release = record.release;
    let of_attempt = |r: ReaperRecord<S>| r.is_of(id, release);
    let of_report = |r: ReaperRecord<S>| r.id == id && releases.aliases(r.release);
    let full = ReaperRecord {
        physical: Some(output),
        terminal: Some(bundle),
        terminal_releases: Some(releases),
        poisoned: record.poisoned || poisoned,
        ..record
    };

    assert forall|j: int| 0 <= j < index implies !of_attempt(#[trigger] view.records[j]) by {
        assert(!view.records[index].is_of(view.records[j].id, view.records[j].release));
    }
    assert forall|j: int| 0 <= j < index implies !of_report(#[trigger] view.records[j]) by {
        assert(!of_attempt(view.records[j]));
    }
    lemma_first_is(view.records, of_attempt, index);
    lemma_first_is(view.records, of_report, index);

    let with_output = ReaperView::with_physical(record, output, poisoned);
    let exited = view.replaced(index, with_output);
    assert(view.after_physical(id, release, output, poisoned) == exited);
    assert forall|j: int| 0 <= j < index implies !of_report(#[trigger] exited.records[j]) by {
        assert(!of_report(view.records[j]));
    }
    lemma_first_is(exited.records, of_report, index);

    let with_bundle = ReaperView::with_terminal(record, bundle, releases);
    let reported = view.replaced(index, with_bundle);
    assert(view.after_terminal(id, bundle, releases) == reported);
    assert forall|j: int| 0 <= j < index implies !of_attempt(#[trigger] reported.records[j]) by {
        assert(!of_attempt(view.records[j]));
    }
    lemma_first_is(reported.records, of_attempt, index);

    assert(exited.replaced(index, full).records =~= view.replaced(index, full).records);
    assert(reported.replaced(index, full).records =~= view.replaced(index, full).records);
    assert(ReaperView::with_terminal(with_output, bundle, releases) == full);
    assert(ReaperView::with_physical(with_bundle, output, poisoned) == full);
    lemma_replaced_tracked(view, index, full);
    lemma_settled_tracked(view.replaced(index, full), index);
    assert(view.replaced(index, full).records.remove(index) =~= view.records.remove(index));
    assert(view.physical_effects(id, release, output, poisoned) =~= Seq::<EffectView<S>>::empty());
    assert(reported.physical_effects(id, release, output, poisoned)
        =~= full.ready().release_effects());
}

/// Once exit and report have met, the name is reserved only if another attempt still waits under
/// it.
pub proof fn law_a_released_attempt_frees_its_name<S>(
    view: ReaperView<S>,
    index: int,
    output: u64,
    poisoned: bool,
    bundle: DropBundle<S>,
    releases: TerminalReleases,
)
    requires
        tracked_attempts(view),
        0 <= index < view.records.len(),
        view.records[index].physical is None,
        view.records[index].terminal is None,
        releases.aliases(view.records[index].release),
    ensures
        ({
            let record = view.records[index];
            let released = view.after_physical(
                record.id,
                record.release,
                output,
                poisoned,
            ).after_terminal(record.id, bundle, releases);
            released.reserves(record.name@) <==> exists|i: int|
                0 <= i < view.records.len() && i != index && (#[trigger] view.records[i]).name@
                    == record.name@
        }),
{
    let record = view.records[index];
    let name = record.name@;
    let exited = view.after_physical(record.id, record.release, output, poisoned);
    let released = exited.after_terminal(record.id, bundle, releases);
    law_exit_and_report_commute(view, index, output, poisoned, bundle, releases);
    law_arrivals_keep_attempts_tracked(
        view,
        record.id,
        record.release,
        output,
        poisoned,
        bundle,
        releases,
    );
    law_arrivals_keep_attempts_tracked(
        exited,
        record.id,
        record.release,
        output,
        poisoned,
        bundle,
        releases,
    );
    law_name_is_reserved_while_a_record_waits(released, name);
    if released.reserves(name) {
        let k = choose|k: int|
            0 <= k < released.records.len() && (#[trigger] released.records[k]).name@ == name;
        let i = if k < index { k } else { k + 1 };
        assert(view.records[i] == released.records[k]);
    }
    if exists|i: int|
        0 <= i < view.records.len() && i != index && (#[trigger] view.records[i]).name@ == name {
        let i = choose|i: int|
            0 <= i < view.records.len() && i != index && (#[trigger] view.records[i]).name@
                == name;
        let k = if i < index { i } else { i - 1 };
        assert(released.records[k] == view.records[i]);
        assert(released.records[k].name@ == name);
    }
}

/// Number of user-value bundles that wait in the reaper.
pub open spec fn bundles_held<S>(records: Seq<ReaperRecord<S>>) -> nat
    decreases records.len(),
{
    if records.len() == 0 {
        0
    } else {
        bundles_held(records.drop_last()) + if records.last().terminal is Some {
            1nat
        } else {
            0nat
        }
    }
}

/// Number of user-value bundles that are submitted.
pub open spec fn bundles_submitted<S>(effects: Seq<EffectView<S>>) -> nat
    decreases effects.len(),
{
    if effects.len() == 0 {
        0
    } else {
        bundles_submitted(effects.drop_last()) + if effects.last() is Submit {
            1nat
        } else {
            0nat
        }
    }
}

/// Replacing a record changes the number of waiting bundles by that record alone.
proof fn lemma_held_update<S>(records: Seq<ReaperRecord<S>>, index: int, record: ReaperRecord<S>)
    requires
        0 <= index < records.len(),
    ensures
        bundles_held(records.update(index, record)) + (if records[index].terminal is Some {
            1nat
        } else {
            0nat
        }) == bundles_held(records) + (if record.terminal is Some {
            1nat
        } else {
            0nat
        }),
    decreases records.len(),
{
    let next = records.update(index, record);
    if index == records.len() - 1 {
        assert(next.drop_last() =~= records.drop_last());
    } else {
        assert(next.drop_last() =~= records.drop_last().update(index, record));
        lemma_held_update(records.drop_last(), index, record);
    }
}

/// Removing a record takes its bundle along.
proof fn lemma_held_remove<S>(records: Seq<ReaperRecord<S>>, index: int)
    requires
        0 <= index < records.len(),
    ensures
        bundles_held(records) == bundles_held(records.remove(index)) + if records[index].terminal is Some {
            1nat
        } else {
            0nat
        },
    decreases records.len(),
{
    let next = records.remove(index);
    if index == records.len() - 1 {
        assert(next =~= records.drop_last());
    } else {
        assert(next.drop_last() =~= records.drop_last().remove(index));
        assert(next.last() == records.last());
        lemma_held_remove(records.drop_last(), index);
    }
}

/// Submissions of two lists of effects add up.
proof fn lemma_submitted_add<S>(first: Seq<EffectView<S>>, second: Seq<EffectView<S>>)
    ensures
        bundles_submitted(first + second) == bundles_submitted(first) + bundles_submitted(second),
    decreases second.len(),
{
    if second.len() == 0 {
        assert(first + second =~= first);
    } else {
        assert((first + second).drop_last() =~= first + second.drop_last());
        assert((first + second).last() == second.last());
        lemma_submitted_add(first, second.drop_last());
    }
}

/// Completing latches submits nothing.
proof fn lemma_completions_submit_nothing<S>(releases: TerminalReleases)
    ensures
        bundles_submitted(releases.completions::<S>()) == 0,
{
    reveal_with_fuel(bundles_submitted, 3);
    let effects = releases.completions::<S>();
    if releases.state is Some {
        assert(effects.drop_last().drop_last() =~= Seq::<EffectView<S>>::empty());
    } else {
        assert(effects.drop_last() =~= Seq::<EffectView<S>>::empty());
    }
}

/// A record that leaves submits exactly its own bundle.
proof fn lemma_ready_submits_once<S>(record: ReaperRecord<S>)
    requires
        record.is_complete(),
    ensures
        bundles_submitted(record.ready().release_effects()) == 1,
{
    reveal_with_fuel(bundles_submitted, 4);
    let ready = record.ready();
    let head = seq![
        EffectView::Submit(
            DropBundle {
                output: Some(ready.physical),
                poisoned: ready.bundle.poisoned || ready.poisoned,
                ..ready.bundle
            },
        ),
        EffectView::CompletePhysical(ready.release),
    ];
    let middle = ready.terminal_releases.completions::<S>();
    let tail: Seq<EffectView<S>> = match ready.duplicate_releases {
        Some(releases) => releases.completions::<S>(),
        None => seq![],
    };
    assert(ready.release_effects() =~= head + middle + tail);
    assert(head.drop_last().drop_last() =~= Seq::<EffectView<S>>::empty());
    assert(bundles_submitted(head) == 1);
    lemma_completions_submit_nothing::<S>(ready.terminal_releases);
    if let Some(releases) = ready.duplicate_releases {
        lemma_completions_submit_nothing::<S>(releases);
    }
    lemma_submitted_add(head, middle);
    lemma_submitted_add(head + middle, tail);
}

/// Settling a record neither loses nor doubles its bundle.
proof fn lemma_settled_conserves<S>(view: ReaperView<S>, index: int)
    requires
        0 <= index < view.records.len(),
    ensures
        bundles_held(view.settled(index).records) + bundles_submitted(view.settled_effects(index))
            == bundles_held(view.records),
{
    let record = view.records[index];
    if record.is_complete() {
        lemma_ready_submits_once(record);
        lemma_held_remove(view.records, index);
    }
}

/// User values are neither lost nor destroyed twice: a terminal report brings one bundle, which is
/// submitted or waits in the reaper, and every other bundle that leaves the reaper is submitted.
pub proof fn law_a_report_conserves_user_values<S>(
    view: ReaperView<S>,
    id: TaskId,
    bundle: DropBundle<S>,
    releases: TerminalReleases,
)
    ensures
        bundles_held(view.after_terminal(id, bundle, releases).records) + bundles_submitted(
            view.terminal_effects(id, bundle, releases),
        ) == bundles_held(view.records) + 1,
{
    let effects = view.terminal_effects(id, bundle, releases);
    let submit = seq![EffectView::<S>::Submit(bundle)];
    reveal_with_fuel(bundles_submitted, 2);
    assert(submit.drop_last() =~= Seq::<EffectView<S>>::empty());
    assert(bundles_submitted(submit) == 1);
    lemma_completions_submit_nothing::<S>(releases);
    lemma_submitted_add(submit, releases.completions::<S>());
    lemma_indexes(view, id, releases.report, releases);
    if let Some(index) = view.terminal_index(id, releases) {
        let record = ReaperView::with_terminal(view.records[index], bundle, releases);
        lemma_held_update(view.records, index, record);
        lemma_settled_conserves(view.replaced(index, record), index);
    }
}

/// Physical exit brings no bundle: whatever leaves the reaper by it is submitted.
pub proof fn law_an_exit_conserves_user_values<S>(
    view: ReaperView<S>,
    id: TaskId,
    release: RemovalCompletion,
    output: u64,
    poisoned: bool,
)
    ensures
        bundles_held(view.after_physical(id, release, output, poisoned).records)
            + bundles_submitted(view.physical_effects(id, release, output, poisoned))
            == bundles_held(view.records),
{
    let retain = seq![EffectView::<S>::Retain(output)];
    reveal_with_fuel(bundles_submitted, 2);
    assert(retain.drop_last() =~= Seq::<EffectView<S>>::empty());
    assert(bundles_submitted(retain) == 0);
    lemma_indexes(view, id, release, TerminalReleases { state: None, report: release });
    if let Some(index) = view.physical_index(id, release) {
        let record = ReaperView::with_physical(view.records[index], output, poisoned);
        let replaced = view.replaced(index, record);
        lemma_held_update(view.records, index, record);
        lemma_settled_conserves(replaced, index);
        lemma_submitted_add(retain, replaced.settled_effects(index));
        lemma_submitted_add(Seq::<EffectView<S>>::empty(), replaced.settled_effects(index));
    }
}

/// No waiter for physical release wakes before the user values it waits for are submitted.
pub proof fn law_latches_complete_after_submission<S>(
    view: ReaperView<S>,
    id: TaskId,
    release: RemovalCompletion,
    output: u64,
    poisoned: bool,
    bundle: DropBundle<S>,
    releases: TerminalReleases,
    i: int,
)
    ensures
        ({
            let effects = view.terminal_effects(id, bundle, releases);
            0 <= i < effects.len() && effects[i] is CompletePhysical ==> 0 < i && effects[0] is Submit
        }),
        ({
            let effects = view.physical_effects(id, release, output, poisoned);
            0 <= i < effects.len() && effects[i] is CompletePhysical ==> exists|j: int|
                0 <= j < i && #[trigger] effects[j] is Submit
        }),
{
    let effects = view.physical_effects(id, release, output, poisoned);
    if 0 <= i < effects.len() && effects[i] is CompletePhysical {
        let index = view.physical_index(id, release)->0;
        let retained: int = if view.records[index].physical is Some {
            1
        } else {
            0
        };
        assert(effects[retained] is Submit);
    }
}

/// When exit and report have met, the reported user values are submitted with the output of the
/// exit, unsafe to reuse as soon as anybody said so, and then everybody who waits is released: the
/// latch of the attempt and those of the report. No other record and no other name is touched.
pub proof fn law_a_matched_attempt_is_released_whole<S>(
    view: ReaperView<S>,
    index: int,
    output: u64,
    poisoned: bool,
    bundle: DropBundle<S>,
    state: Option<RemovalCompletion>,
)
    requires
        tracked_attempts(view),
        0 <= index < view.records.len(),
        view.records[index].physical is None,
        view.records[index].terminal is None,
        state is Some ==> state == Some(view.records[index].release),
    ensures
        ({
            let record = view.records[index];
            let releases = TerminalReleases { state, report: record.release };
            let exited = view.after_physical(record.id, record.release, output, poisoned);
            let reported = view.after_terminal(record.id, bundle, releases);
            let effects = exited.terminal_effects(record.id, bundle, releases);
            &&& effects == reported.physical_effects(record.id, record.release, output, poisoned)
            &&& effects.len() >= 2
            &&& effects[0] matches EffectView::Submit(submitted) && {
                &&& submitted.ticket == bundle.ticket
                &&& submitted.outcomes == bundle.outcomes
                &&& submitted.payload == bundle.payload
                &&& submitted.output == Some(output)
                &&& submitted.poisoned == (bundle.poisoned || poisoned || record.poisoned)
            }
            &&& effects.contains(EffectView::CompletePhysical(record.release))
            &&& record.duplicate_releases matches Some(other) ==> effects.contains(
                EffectView::CompletePhysical(other.report),
            )
            &&& forall|i: int| 0 < i < effects.len() ==> #[trigger] effects[i] is CompletePhysical
            &&& exited.after_terminal(record.id, bundle, releases).records == view.records.remove(
                index,
            )
            &&& exited.after_terminal(record.id, bundle, releases).activities
                == view.activities.remove(index)
        }),
{
    let record = view.records[index];
    let releases = TerminalReleases { state, report: record.release };
    law_exit_and_report_commute(view, index, output, poisoned, bundle, releases);
    let exited = view.after_physical(record.id, record.release, output, poisoned);
    let effects = exited.terminal_effects(record.id, bundle, releases);
    assert(effects[1] == EffectView::<S>::CompletePhysical(record.release));
    if let Some(other) = record.duplicate_releases {
        assert(effects.last() == EffectView::<S>::CompletePhysical(other.report));
    }
}

/// A report about a task that nobody reaps is settled on the spot: its user values are submitted as
/// they are, then its waiters are released, and no attempt is touched.
pub proof fn law_a_report_without_an_attempt_is_settled_at_once<S>(
    view: ReaperView<S>,
    id: TaskId,
    bundle: DropBundle<S>,
    releases: TerminalReleases,
)
    requires
        forall|i: int| 0 <= i < view.records.len() ==> (#[trigger] view.records[i]).id != id,
    ensures
        ({
            let effects = view.terminal_effects(id, bundle, releases);
            &&& view.after_terminal(id, bundle, releases) == view
            &&& effects[0] == EffectView::<S>::Submit(bundle)
            &&& effects.last() == EffectView::<S>::CompletePhysical(releases.report)
            &&& releases.state matches Some(state) ==> effects.contains(
                EffectView::CompletePhysical(state),
            )
            &&& effects.len() == (if releases.state is Some {
                3int
            } else {
                2int
            })
        }),
{
    lemma_indexes(view, id, releases.report, releases);
    let effects = view.terminal_effects(id, bundle, releases);
    if let Some(state) = releases.state {
        assert(effects[1] == EffectView::<S>::CompletePhysical(state));
    }
}

/// An exit that belongs to no attempt, or comes a second time, destroys nothing: its output is kept
/// forever. A second exit marks the attempt as unsafe, and releases nobody while no report is
/// there.
pub proof fn law_a_stray_exit_destroys_nothing<S>(
    view: ReaperView<S>,
    id: TaskId,
    release: RemovalCompletion,
    output: u64,
    poisoned: bool,
)
    ensures
        !knows_attempt(view, id, release) ==> {
            &&& view.after_physical(id, release, output, poisoned) == view
            &&& view.physical_effects(id, release, output, poisoned) == seq![
                EffectView::<S>::Retain(output),
            ]
        },
        forall|index: int|
            #![trigger view.records[index]]
            tracked_attempts(view) && 0 <= index < view.records.len() && view.records[index].id
                == id && view.records[index].release == release
                && view.records[index].physical is Some && view.records[index].terminal is None
                ==> {
                &&& view.physical_effects(id, release, output, poisoned) == seq![
                    EffectView::<S>::Retain(output),
                ]
                &&& view.after_physical(id, release, output, poisoned).records
                    == view.records.update(
                    index,
                    ReaperRecord { poisoned: true, ..view.records[index] },
                )
            },
{
    let of_attempt = |r: ReaperRecord<S>| r.is_of(id, release);
    lemma_first_where(view.records, of_attempt);
    if !knows_attempt(view, id, release) {
        if let Some(index) = view.physical_index(id, release) {
            assert(view.records[index].is_of(id, release));
        }
    }
    assert forall|index: int|
        #![trigger view.records[index]]
        tracked_attempts(view) && 0 <= index < view.records.len() && view.records[index].id == id
            && view.records[index].release == release && view.records[index].physical is Some
            && view.records[index].terminal is None implies {
        &&& view.physical_effects(id, release, output, poisoned) == seq![
            EffectView::<S>::Retain(output),
        ]
        &&& view.after_physical(id, release, output, poisoned).records == view.records.update(
            index,
            ReaperRecord { poisoned: true, ..view.records[index] },
        )
    } by {
        assert forall|j: int| 0 <= j < index implies !of_attempt(#[trigger] view.records[j]) by {
            assert(!view.records[index].is_of(view.records[j].id, view.records[j].release));
        }
        lemma_first_is(view.records, of_attempt, index);
        assert(view.physical_effects(id, release, output, poisoned) =~= seq![
            EffectView::<S>::Retain(output),
        ]);
    }
}

/// A second report of an attempt gives up its own user values at once and takes nothing from the
/// first: the waiting bundle and its latches stay with the attempt.
pub proof fn law_a_second_report_takes_nothing_from_the_first<S>(
    view: ReaperView<S>,
    id: TaskId,
    bundle: DropBundle<S>,
    releases: TerminalReleases,
)
    requires
        exists|i: int| 0 <= i < view.records.len() && (#[trigger] view.records[i]).id == id,
        forall|i: int|
            0 <= i < view.records.len() && (#[trigger] view.records[i]).id == id
                ==> view.records[i].terminal is Some,
    ensures
        ({
            let after = view.after_terminal(id, bundle, releases);
            let effects = view.terminal_effects(id, bundle, releases);
            &&& effects[0] == EffectView::<S>::Submit(bundle)
            &&& after.activities == view.activities
            &&& after.records.len() == view.records.len()
            &&& forall|i: int|
                0 <= i < view.records.len() ==> {
                    &&& (#[trigger] after.records[i]).terminal == view.records[i].terminal
                    &&& after.records[i].terminal_releases == view.records[i].terminal_releases
                    &&& after.records[i].physical == view.records[i].physical
                    &&& after.records[i].release == view.records[i].release
                    &&& after.records[i].id == view.records[i].id
                    &&& after.records[i].name == view.records[i].name
                    &&& view.records[i].poisoned ==> after.records[i].poisoned
                }
            &&& forall|i: int|
                0 < i < effects.len() ==> #[trigger] effects[i] is CompletePhysical
        }),
{
    lemma_indexes(view, id, releases.report, releases);
    lemma_first_where(view.records, |record: ReaperRecord<S>| record.id == id);
}

/// A report about a task whose attempt has not exited waits with that attempt, even where its
/// latches are others than the attempt's: nothing is submitted and nobody is released.
pub proof fn law_a_report_waits_for_its_attempt<S>(
    view: ReaperView<S>,
    id: TaskId,
    bundle: DropBundle<S>,
    releases: TerminalReleases,
)
    requires
        exists|i: int| 0 <= i < view.records.len() && (#[trigger] view.records[i]).id == id,
        forall|i: int|
            0 <= i < view.records.len() && (#[trigger] view.records[i]).id == id
                ==> view.records[i].terminal is None && view.records[i].physical is None,
    ensures
        view.terminal_effects(id, bundle, releases).len() == 0,
        view.after_terminal(id, bundle, releases).activities == view.activities,
        view.after_terminal(id, bundle, releases).records.len() == view.records.len(),
        exists|i: int|
            {
                &&& 0 <= i < view.records.len()
                &&& view.records[i].id == id
                &&& #[trigger] view.after_terminal(id, bundle, releases).records[i] == (ReaperRecord {
                    terminal: Some(bundle),
                    terminal_releases: Some(releases),
                    ..view.records[i]
                })
            },
{
    lemma_indexes(view, id, releases.report, releases);
    lemma_first_where(view.records, |record: ReaperRecord<S>| record.id == id);
    let index = view.terminal_index(id, releases)->0;
    let after = view.after_terminal(id, bundle, releases);
    assert(after.records[index] == (ReaperRecord {
        terminal: Some(bundle),
        terminal_releases: Some(releases),
        ..view.records[index]
    }));
}

/// Of several waiting attempts of a task a report goes to the one with its own latch.
pub proof fn law_a_report_finds_its_own_attempt<S>(
    view: ReaperView<S>,
    index: int,
    bundle: DropBundle<S>,
)
    requires
        attempts_distinct(view),
        0 <= index < view.records.len(),
        view.records[index].terminal is None,
        view.records[index].physical is None,
    ensures
        ({
            let record = view.records[index];
            let releases = TerminalReleases { state: None, report: record.release };
            let both = TerminalReleases { state: Some(record.release), report: record.release };
            &&& view.after_terminal(record.id, bundle, releases).records == view.records.update(
                index,
                ReaperRecord {
                    terminal: Some(bundle),
                    terminal_releases: Some(releases),
                    ..record
                },
            )
            &&& view.after_terminal(record.id, bundle, both).records == view.records.update(
                index,
                ReaperRecord { terminal: Some(bundle), terminal_releases: Some(both), ..record },
            )
        }),
{
    let record = view.records[index];
    let releases = TerminalReleases { state: None, report: record.release };
    let both = TerminalReleases { state: Some(record.release), report: record.release };
    let one = |r: ReaperRecord<S>| r.id == record.id && releases.aliases(r.release);
    let other = |r: ReaperRecord<S>| r.id == record.id && both.aliases(r.release);
    assert forall|j: int| 0 <= j < index implies !one(#[trigger] view.records[j]) && !other(
        view.records[j],
    ) by {
        assert(view.records[j].id != record.id || view.records[j].release != record.release);
    }
    lemma_first_is(view.records, one, index);
    lemma_first_is(view.records, other, index);
}

/// A second report of a task with one attempt leaves its latches where they belong: latches that
/// are the attempt's own complete with it, the first foreign set waits with it, and any further one
/// is released at once and marks the attempt as unsafe.
pub proof fn law_foreign_latches_are_not_forgotten<S>(
    view: ReaperView<S>,
    bundle: DropBundle<S>,
    releases: TerminalReleases,
)
    requires
        view.records.len() == 1,
        view.records[0].terminal is Some,
    ensures
        ({
            let record = view.records[0];
            let own = releases.report == record.release && (releases.state is None
                || releases.state == Some(record.release));
            let after = view.after_terminal(record.id, bundle, releases).records[0];
            let effects = view.terminal_effects(record.id, bundle, releases);
            &&& own ==> after == record && effects.len() == 1
            &&& !own && record.duplicate_releases is None ==> after == (ReaperRecord {
                duplicate_releases: Some(releases),
                ..record
            }) && effects.len() == 1
            &&& !own && record.duplicate_releases is Some ==> after == (ReaperRecord {
                poisoned: true,
                ..record
            }) && effects.last() == EffectView::<S>::CompletePhysical(releases.report)
            &&& effects[0] == EffectView::<S>::Submit(bundle)
        }),
{
    let record = view.records[0];
    lemma_indexes(view, record.id, releases.report, releases);
    lemma_first_where(view.records, |r: ReaperRecord<S>| r.id == record.id);
}

} // verus!
