//! Force-aborted attempts, retained until physical ownership is safe to release.
//!
//! Logical removal can finish when a grace deadline aborts an actor, but an abort is not proof
//! that the actor has physically exited. The reaper registers the task name before the abort.
//! Admission and activity queries consult those reservations after registry membership is gone.
//!
//! Physical actor output and the terminal bundle can arrive in either order. Reaper records join
//! them by task identity and physical latch. When both are present, the record releases its name,
//! the bundle takes the output, and the bundle is submitted before physical waiters are released.

use vstd::prelude::*;

use super::actor::AttemptReservation;
use super::completion::RemovalCompletion;
use super::effects::{effect_views, lemma_effect_views_push, Effect, EffectView};
use crate::deferred_drop::DropBundle;
use crate::identity::TaskId;
use crate::search::{first_from, first_where, lemma_first_where};

verus! {

/// Physical latches completed after deferred ownership is committed.
#[derive(Clone, Copy, Debug, PartialEq, Eq, Structural)]
pub struct TerminalReleases {
    /// Latch retained in registry state, if there is one.
    pub state: Option<RemovalCompletion>,
    /// Latch returned in the removal report.
    pub report: RemovalCompletion,
}

impl TerminalReleases {
    /// Whether every release aliases the given latch.
    pub open spec fn aliases(self, completion: RemovalCompletion) -> bool {
        &&& self.state is Some ==> self.state == Some(completion)
        &&& self.report == completion
    }

    /// Completion of every latch of the set.
    pub open spec fn completions<S>(self) -> Seq<EffectView<S>> {
        match self.state {
            Some(state) => seq![
                EffectView::CompletePhysical(state),
                EffectView::CompletePhysical(self.report),
            ],
            None => seq![EffectView::CompletePhysical(self.report)],
        }
    }

    /// Whether every release aliases the canonical latch.
    pub fn shares_latch(&self, completion: &RemovalCompletion) -> (shares: bool)
        ensures
            shares == self.aliases(*completion),
    {
        let state_shares = match &self.state {
            Some(state) => state.shares_physical_latch(completion),
            None => true,
        };
        state_shares && self.report.shares_physical_latch(completion)
    }

    /// Completes every physical latch of the set.
    pub fn complete<S>(self, effects: &mut Vec<Effect<S>>)
        ensures
            effect_views(final(effects)@) == effect_views(old(effects)@) + self.completions::<S>(),
    {
        broadcast use lemma_effect_views_push;

        if let Some(state) = self.state {
            effects.push(Effect::CompletePhysical(state));
        }
        effects.push(Effect::CompletePhysical(self.report));
        proof {
            assert(effect_views(effects@) =~= effect_views(old(effects)@) + self.completions::<S>());
        }
    }
}

/// Activity metadata retained through physical exit.
#[derive(Debug)]
pub struct ReaperActivity {
    /// Name reserved by the attempt.
    pub name: String,
    /// Stable task identity.
    pub id: TaskId,
    /// Physical release latch for this attempt.
    pub release: RemovalCompletion,
    /// Whether the actor is inside an attempt.
    pub activity: bool,
}

/// Pairing between a physical join and its terminal cleanup bundle.
#[derive(Debug)]
pub struct ReaperRecord<S> {
    /// Stable task identity.
    pub id: TaskId,
    /// Name reserved by this attempt.
    pub name: String,
    /// Ticket of the physical actor output.
    pub physical: Option<u64>,
    /// Cleanup bundle with its capacity reservation.
    pub terminal: Option<DropBundle<S>>,
    /// Canonical physical release latch.
    pub release: RemovalCompletion,
    /// Releases attached by terminal cleanup.
    pub terminal_releases: Option<TerminalReleases>,
    /// One defensive set of non-canonical releases.
    pub duplicate_releases: Option<TerminalReleases>,
    /// Whether inconsistent or panicking cleanup was observed.
    pub poisoned: bool,
}

/// Fully matched record moved out of the reaper.
#[derive(Debug)]
pub struct ReadyRecord<S> {
    /// Matched bundle ready to receive the physical output.
    pub bundle: DropBundle<S>,
    /// Ticket of the matched physical output.
    pub physical: u64,
    /// Canonical latch completed after bundle submission.
    pub release: RemovalCompletion,
    /// Terminal latches completed after bundle submission.
    pub terminal_releases: TerminalReleases,
    /// Defensive latch set completed after bundle submission.
    pub duplicate_releases: Option<TerminalReleases>,
    /// Poison state applied before bundle submission.
    pub poisoned: bool,
}

/// What physical completion found.
#[derive(Debug)]
pub struct PhysicalMatch<S> {
    /// Record that became complete.
    pub ready: Option<ReadyRecord<S>>,
    /// Ticket of an output that belongs to no record: it is kept forever.
    pub retained: Option<u64>,
}

/// Reaper records and name activity.
pub struct AttemptReaper<S> {
    activities: Vec<ReaperActivity>,
    records: Vec<ReaperRecord<S>>,
}

/// Contents of an [`AttemptReaper`].
pub struct ReaperView<S> {
    /// Reserved names in the order of registration.
    pub activities: Seq<ReaperActivity>,
    /// Records in the order of registration.
    pub records: Seq<ReaperRecord<S>>,
}

impl<S> View for AttemptReaper<S> {
    type V = ReaperView<S>;

    closed spec fn view(&self) -> ReaperView<S> {
        ReaperView { activities: self.activities@, records: self.records@ }
    }
}

impl<S> ReaperRecord<S> {
    /// Whether the record belongs to the attempt with this identity and latch.
    pub open spec fn is_of(self, id: TaskId, release: RemovalCompletion) -> bool {
        self.id == id && self.release == release
    }

    /// Whether physical output and terminal bundle have both arrived.
    pub open spec fn is_complete(self) -> bool {
        self.physical is Some && self.terminal is Some && self.terminal_releases is Some
    }

    /// The record as it leaves the reaper.
    pub open spec fn ready(self) -> ReadyRecord<S> {
        ReadyRecord {
            bundle: self.terminal->0,
            physical: self.physical->0,
            release: self.release,
            terminal_releases: self.terminal_releases->0,
            duplicate_releases: self.duplicate_releases,
            poisoned: self.poisoned,
        }
    }
}

impl ReaperActivity {
    /// Whether this reservation is released together with a record of that name and attempt.
    pub open spec fn released_with(
        self,
        name: Seq<char>,
        id: TaskId,
        release: RemovalCompletion,
    ) -> bool {
        self.name@ == name && self.id == id && self.release == release
    }
}

impl<S> ReadyRecord<S> {
    /// Release of a matched record: the bundle is submitted before any latch completes.
    pub open spec fn release_effects(self) -> Seq<EffectView<S>> {
        seq![
            EffectView::Submit(
                DropBundle {
                    output: Some(self.physical),
                    poisoned: self.bundle.poisoned || self.poisoned,
                    ..self.bundle
                },
            ),
            EffectView::CompletePhysical(self.release),
        ] + self.terminal_releases.completions::<S>() + match self.duplicate_releases {
            Some(releases) => releases.completions::<S>(),
            None => seq![],
        }
    }
}

impl<S> ReaperView<S> {
    /// Whether physical reaping reserves a name.
    pub open spec fn reserves(self, name: Seq<char>) -> bool {
        exists|i: int| 0 <= i < self.activities.len() && (#[trigger] self.activities[i]).name@ == name
    }

    /// Whether a reaped attempt under a name is still active.
    pub open spec fn alive(self, name: Seq<char>) -> bool {
        exists|i: int|
            0 <= i < self.activities.len() && (#[trigger] self.activities[i]).name@ == name
                && self.activities[i].activity
    }

    /// Contents with the activity of a task's attempts set.
    pub open spec fn with_activity(self, id: TaskId, active: bool) -> ReaperView<S> {
        ReaperView {
            activities: self.activities.map_values(
                |activity: ReaperActivity|
                    if activity.id == id {
                        ReaperActivity { activity: active, ..activity }
                    } else {
                        activity
                    },
            ),
            ..self
        }
    }

    /// First record of an attempt.
    pub open spec fn physical_index(self, id: TaskId, release: RemovalCompletion) -> Option<int> {
        first_where(self.records, |record: ReaperRecord<S>| record.is_of(id, release))
    }

    /// Record that a terminal report of `id` belongs to.
    ///
    /// The record with the same latch, else the first that has no terminal yet, else the first.
    pub open spec fn terminal_index(self, id: TaskId, releases: TerminalReleases) -> Option<int> {
        let matching = first_where(
            self.records,
            |record: ReaperRecord<S>| record.id == id && releases.aliases(record.release),
        );
        let open = first_where(
            self.records,
            |record: ReaperRecord<S>| record.id == id && record.terminal is None,
        );
        let any = first_where(self.records, |record: ReaperRecord<S>| record.id == id);
        if matching is Some {
            matching
        } else if open is Some {
            open
        } else {
            any
        }
    }

    /// Contents with one record replaced.
    pub open spec fn replaced(self, index: int, record: ReaperRecord<S>) -> ReaperView<S> {
        ReaperView { records: self.records.update(index, record), ..self }
    }

    /// Contents after the record at `index` left, if it is complete.
    pub open spec fn settled(self, index: int) -> ReaperView<S> {
        let record = self.records[index];
        if record.is_complete() {
            ReaperView {
                records: self.records.remove(index),
                activities: self.activities.filter(
                    |activity: ReaperActivity|
                        !activity.released_with(record.name@, record.id, record.release),
                ),
            }
        } else {
            self
        }
    }

    /// Whether the record at `index` is there, belongs to a task, and is complete.
    pub open spec fn ready_at(self, id: TaskId, index: int) -> bool {
        0 <= index < self.records.len() && self.records[index].id == id
            && self.records[index].is_complete()
    }

    /// Effects of the record at `index` leaving, if it is complete.
    pub open spec fn settled_effects(self, index: int) -> Seq<EffectView<S>> {
        if self.records[index].is_complete() {
            self.records[index].ready().release_effects()
        } else {
            seq![]
        }
    }

    /// Record after physical output arrived.
    pub open spec fn with_physical(record: ReaperRecord<S>, output: u64, poisoned: bool) -> ReaperRecord<
        S,
    > {
        if record.physical is Some {
            ReaperRecord { poisoned: true, ..record }
        } else {
            ReaperRecord {
                physical: Some(output),
                poisoned: record.poisoned || poisoned,
                ..record
            }
        }
    }

    /// Record after a terminal report arrived.
    pub open spec fn with_terminal(
        record: ReaperRecord<S>,
        bundle: DropBundle<S>,
        releases: TerminalReleases,
    ) -> ReaperRecord<S> {
        if record.terminal is None {
            ReaperRecord { terminal: Some(bundle), terminal_releases: Some(releases), ..record }
        } else if releases.aliases(record.release) {
            record
        } else if record.duplicate_releases is None {
            ReaperRecord { duplicate_releases: Some(releases), ..record }
        } else {
            ReaperRecord { poisoned: true, ..record }
        }
    }

    /// Contents after the physical output of an attempt arrived.
    pub open spec fn after_physical(
        self,
        id: TaskId,
        release: RemovalCompletion,
        output: u64,
        poisoned: bool,
    ) -> ReaperView<S> {
        match self.physical_index(id, release) {
            Some(index) => self.replaced(
                index,
                Self::with_physical(self.records[index], output, poisoned),
            ).settled(index),
            None => self,
        }
    }

    /// Effects of the physical output of an attempt.
    ///
    /// An output without a record, or the second one of a record, is kept forever.
    pub open spec fn physical_effects(
        self,
        id: TaskId,
        release: RemovalCompletion,
        output: u64,
        poisoned: bool,
    ) -> Seq<EffectView<S>> {
        match self.physical_index(id, release) {
            Some(index) => {
                let retained: Seq<EffectView<S>> = if self.records[index].physical is Some {
                    seq![EffectView::Retain(output)]
                } else {
                    seq![]
                };
                retained + self.replaced(
                    index,
                    Self::with_physical(self.records[index], output, poisoned),
                ).settled_effects(index)
            },
            None => seq![EffectView::Retain(output)],
        }
    }

    /// Contents after a terminal report arrived.
    pub open spec fn after_terminal(
        self,
        id: TaskId,
        bundle: DropBundle<S>,
        releases: TerminalReleases,
    ) -> ReaperView<S> {
        match self.terminal_index(id, releases) {
            Some(index) => {
                let next = self.replaced(
                    index,
                    Self::with_terminal(self.records[index], bundle, releases),
                );
                if self.records[index].terminal is None {
                    next.settled(index)
                } else {
                    next
                }
            },
            None => self,
        }
    }

    /// Effects of a terminal report.
    ///
    /// A report without a record releases at once. The first report of a record waits in it.
    /// A later one gives up its bundle at once; its latches are dropped where they alias the
    /// record's own, wait in the record where it has room for them, and complete at once otherwise.
    pub open spec fn terminal_effects(
        self,
        id: TaskId,
        bundle: DropBundle<S>,
        releases: TerminalReleases,
    ) -> Seq<EffectView<S>> {
        match self.terminal_index(id, releases) {
            Some(index) => {
                let record = self.records[index];
                if record.terminal is None {
                    self.replaced(
                        index,
                        Self::with_terminal(record, bundle, releases),
                    ).settled_effects(index)
                } else if releases.aliases(record.release) || record.duplicate_releases is None {
                    seq![EffectView::Submit(bundle)]
                } else {
                    seq![EffectView::Submit(bundle)] + releases.completions::<S>()
                }
            },
            None => seq![EffectView::Submit(bundle)] + releases.completions::<S>(),
        }
    }
}

/// Contents after an attempt was registered.
pub open spec fn registered<S>(
    view: ReaperView<S>,
    reservation: AttemptReservation,
    active: bool,
) -> ReaperView<S> {
    ReaperView {
        activities: view.activities.push(
            ReaperActivity {
                name: reservation.name,
                id: reservation.id,
                release: reservation.physical_release,
                activity: active,
            },
        ),
        records: view.records.push(
            ReaperRecord {
                id: reservation.id,
                name: reservation.name,
                physical: None,
                terminal: None,
                release: reservation.physical_release,
                terminal_releases: None,
                duplicate_releases: None,
                poisoned: false,
            },
        ),
    }
}

impl<S> AttemptReaper<S> {
    /// Reaper without any attempt.
    pub fn new() -> (reaper: AttemptReaper<S>)
        ensures
            reaper@.activities == Seq::<ReaperActivity>::empty(),
            reaper@.records == Seq::<ReaperRecord<S>>::empty(),
    {
        AttemptReaper { activities: Vec::new(), records: Vec::new() }
    }

    /// Reserves the name of an attempt and opens its record.
    pub fn register(&mut self, reservation: AttemptReservation, active: bool)
        ensures
            final(self)@ == registered(old(self)@, reservation, active),
    {
        let name = reservation.name.clone();
        self.activities.push(
            ReaperActivity {
                name,
                id: reservation.id,
                release: reservation.physical_release,
                activity: active,
            },
        );
        self.records.push(
            ReaperRecord {
                id: reservation.id,
                name: reservation.name,
                physical: None,
                terminal: None,
                release: reservation.physical_release,
                terminal_releases: None,
                duplicate_releases: None,
                poisoned: false,
            },
        );
    }

    /// Number of physical attempts not yet handed to cleanup.
    pub fn active(&self) -> (active: usize)
        ensures
            active == self@.records.len(),
    {
        self.records.len()
    }

    /// First record of an attempt.
    fn position_of(&self, id: TaskId, release: &RemovalCompletion) -> (found: Option<usize>)
        ensures
            match found {
                Some(index) => self@.physical_index(id, *release) == Some(index as int),
                None => self@.physical_index(id, *release) is None,
            },
            found is Some ==> found->0 < self@.records.len() && self@.records[found->0 as int].id
                == id,
    {
        let ghost pred = |record: ReaperRecord<S>| record.is_of(id, *release);
        let mut i: usize = 0;
        while i < self.records.len()
            invariant
                i <= self.records.len(),
                self.records@ == self@.records,
                pred == (|record: ReaperRecord<S>| record.is_of(id, *release)),
                first_from(self@.records, pred, 0) == first_from(self@.records, pred, i as int),
            decreases self.records.len() - i,
        {
            let record = &self.records[i];
            if record.id == id && record.release.shares_physical_latch(release) {
                return Some(i);
            }
            i = i + 1;
        }
        None
    }

    /// Record that a terminal report belongs to.
    fn terminal_position(&self, id: TaskId, releases: &TerminalReleases) -> (found: Option<usize>)
        ensures
            match found {
                Some(index) => self@.terminal_index(id, *releases) == Some(index as int),
                None => self@.terminal_index(id, *releases) is None,
            },
            found is Some ==> found->0 < self@.records.len() && self@.records[found->0 as int].id
                == id,
    {
        let ghost matches_latch = |record: ReaperRecord<S>|
            record.id == id && releases.aliases(record.release);
        let ghost is_open = |record: ReaperRecord<S>| record.id == id && record.terminal is None;
        let ghost is_any = |record: ReaperRecord<S>| record.id == id;
        let ghost records = self@.records;
        let mut open: Option<usize> = None;
        let mut any: Option<usize> = None;
        let mut i: usize = 0;
        while i < self.records.len()
            invariant
                i <= self.records.len(),
                self.records@ == self@.records,
                records == self@.records,
                matches_latch == (|record: ReaperRecord<S>|
                    record.id == id && releases.aliases(record.release)),
                is_open == (|record: ReaperRecord<S>| record.id == id && record.terminal is None),
                is_any == (|record: ReaperRecord<S>| record.id == id),
                first_from(records, matches_latch, 0) == first_from(
                    records,
                    matches_latch,
                    i as int,
                ),
                open is None ==> first_from(records, is_open, 0) == first_from(
                    records,
                    is_open,
                    i as int,
                ),
                open is Some ==> open->0 < records.len() && records[open->0 as int].id == id
                    && first_from(records, is_open, 0) == Some(
                    open->0 as int,
                ),
                any is None ==> first_from(records, is_any, 0) == first_from(
                    records,
                    is_any,
                    i as int,
                ),
                any is Some ==> any->0 < records.len() && records[any->0 as int].id == id
                    && first_from(records, is_any, 0) == Some(
                    any->0 as int,
                ),
            decreases self.records.len() - i,
        {
            let record = &self.records[i];
            if record.id == id {
                if releases.shares_latch(&record.release) {
                    return Some(i);
                }
                if open.is_none() && record.terminal.is_none() {
                    open = Some(i);
                }
                if any.is_none() {
                    any = Some(i);
                }
            }
            i = i + 1;
        }
        if open.is_some() {
            open
        } else {
            any
        }
    }

    /// Releases the name reservations of one attempt.
    fn release_activities(&mut self, name: &String, id: TaskId, release: RemovalCompletion)
        ensures
            final(self)@ == (ReaperView {
                activities: old(self)@.activities.filter(
                    |activity: ReaperActivity| !activity.released_with(name@, id, release),
                ),
                ..old(self)@
            }),
    {
        let ghost all = self.activities@;
        let ghost keep = |activity: ReaperActivity| !activity.released_with(name@, id, release);
        let ghost mut seen: int = 0;
        let mut i: usize = 0;
        proof {
            reveal(Seq::filter);
            assert(all.take(0).filter(keep) =~= Seq::empty());
            assert(all =~= all.take(0).filter(keep) + all.skip(0));
        }
        while i < self.activities.len()
            invariant
                0 <= seen <= all.len(),
                keep == (|activity: ReaperActivity| !activity.released_with(name@, id, release)),
                self.records@ == old(self).records@,
                self.activities@ == all.take(seen).filter(keep) + all.skip(seen),
                i == all.take(seen).filter(keep).len(),
            decreases all.len() - seen,
        {
            let ghost before = all.take(seen).filter(keep);
            proof {
                assert(self.activities@[i as int] == all[seen]);
                assert(all.take(seen + 1).drop_last() =~= all.take(seen));
                assert(all.take(seen + 1).last() == all[seen]);
                assert(all.take(seen + 1).filter(keep) == if keep(all[seen]) {
                    before.push(all[seen])
                } else {
                    before
                }) by {
                    reveal(Seq::filter);
                }
            }
            let activity = &self.activities[i];
            if activity.name == *name && activity.id == id
                && activity.release.shares_physical_latch(&release) {
                let _ = self.activities.remove(i);
                proof {
                    assert(self.activities@ =~= before + all.skip(seen + 1));
                }
            } else {
                i = i + 1;
                proof {
                    assert(self.activities@ =~= before.push(all[seen]) + all.skip(seen + 1));
                }
            }
            proof {
                seen = seen + 1;
            }
        }
        proof {
            assert(seen == all.len());
            assert(all.take(seen) =~= all);
            assert(self.activities@ =~= all.filter(keep));
        }
    }

    /// Moves the record of a task at `index` out of the reaper, if it is there and complete.
    ///
    /// Its name reservations end with it. Otherwise nothing changes.
    pub fn take_ready_record(&mut self, id: TaskId, index: usize) -> (ready: Option<
        ReadyRecord<S>,
    >)
        ensures
            if old(self)@.ready_at(id, index as int) {
                &&& ready == Some(old(self)@.records[index as int].ready())
                &&& final(self)@ == old(self)@.settled(index as int)
            } else {
                ready is None && final(self)@ == old(self)@
            },
    {
        if index >= self.records.len() {
            return None;
        }
        let is_ready = self.records[index].id == id && {
            let record = &self.records[index];
            record.physical.is_some() && record.terminal.is_some()
                && record.terminal_releases.is_some()
        };
        if !is_ready {
            return None;
        }
        let record = self.records.remove(index);
        self.release_activities(&record.name, record.id, record.release);
        match (record.terminal, record.physical, record.terminal_releases) {
            (Some(bundle), Some(physical), Some(terminal_releases)) => Some(
                ReadyRecord {
                    bundle,
                    physical,
                    release: record.release,
                    terminal_releases,
                    duplicate_releases: record.duplicate_releases,
                    poisoned: record.poisoned,
                },
            ),
            _ => None,
        }
    }

    /// Commits a matched record to deferred cleanup before its latches complete.
    fn submit_ready(ready: Option<ReadyRecord<S>>, effects: &mut Vec<Effect<S>>)
        ensures
            effect_views(final(effects)@) == effect_views(old(effects)@) + (match ready {
                Some(record) => record.release_effects(),
                None => seq![],
            }),
    {
        broadcast use lemma_effect_views_push;

        match ready {
            None => {
                proof {
                    assert(effect_views(effects@) =~= effect_views(effects@) + Seq::empty());
                }
            },
            Some(record) => {
                let mut bundle = record.bundle;
                bundle.attach_physical(record.physical);
                if record.poisoned {
                    bundle.poison();
                }
                effects.push(Effect::Submit(bundle));
                effects.push(Effect::CompletePhysical(record.release));
                record.terminal_releases.complete(effects);
                if let Some(releases) = record.duplicate_releases {
                    releases.complete(effects);
                }
                proof {
                    assert(effect_views(effects@) =~= effect_views(old(effects)@)
                        + record.release_effects());
                }
            },
        }
    }

    /// Attaches physical output and takes the record out when it is complete.
    ///
    /// An output without a record, or the second one of a record, is retained.
    pub fn complete_physical(
        &mut self,
        id: TaskId,
        release: &RemovalCompletion,
        output: u64,
        poisoned: bool,
    ) -> (found: PhysicalMatch<S>)
        ensures
            final(self)@ == old(self)@.after_physical(id, *release, output, poisoned),
            match old(self)@.physical_index(id, *release) {
                Some(index) => {
                    let record = ReaperView::with_physical(
                        old(self)@.records[index],
                        output,
                        poisoned,
                    );
                    &&& found.ready == (if record.is_complete() {
                        Some(record.ready())
                    } else {
                        None
                    })
                    &&& found.retained == (if old(self)@.records[index].physical is Some {
                        Some(output)
                    } else {
                        None
                    })
                },
                None => found.ready is None && found.retained == Some(output),
            },
    {
        match self.position_of(id, release) {
            None => PhysicalMatch { ready: None, retained: Some(output) },
            Some(index) => {
                let mut retained: Option<u64> = None;
                if self.records[index].physical.is_some() {
                    self.records[index].poisoned = true;
                    retained = Some(output);
                } else {
                    self.records[index].physical = Some(output);
                    self.records[index].poisoned = self.records[index].poisoned || poisoned;
                }
                proof {
                    assert(self@.records =~= old(self)@.replaced(
                        index as int,
                        ReaperView::with_physical(
                            old(self)@.records[index as int],
                            output,
                            poisoned,
                        ),
                    ).records);
                }
                let ready = self.take_ready_record(id, index);
                PhysicalMatch { ready, retained }
            },
        }
    }

    /// Physical exit of a reaped attempt.
    ///
    /// Output and terminal bundle meet here or in [`attach_terminal`](Self::attach_terminal),
    /// whichever comes last.
    pub fn reap(
        &mut self,
        id: TaskId,
        release: RemovalCompletion,
        output: u64,
        poisoned: bool,
    ) -> (effects: Vec<Effect<S>>)
        ensures
            final(self)@ == old(self)@.after_physical(id, release, output, poisoned),
            effect_views(effects@) == old(self)@.physical_effects(id, release, output, poisoned),
    {
        broadcast use lemma_effect_views_push;

        let mut effects: Vec<Effect<S>> = Vec::new();
        let found = self.complete_physical(id, &release, output, poisoned);
        if let Some(retained) = found.retained {
            effects.push(Effect::Retain(retained));
        }
        AttemptReaper::submit_ready(found.ready, &mut effects);
        proof {
            lemma_first_where(
                old(self)@.records,
                |record: ReaperRecord<S>| record.is_of(id, release),
            );
            assert(effect_views(effects@) =~= old(self)@.physical_effects(
                id,
                release,
                output,
                poisoned,
            ));
        }
        effects
    }

    /// Terminal bundle attached to the matching physical owner.
    ///
    /// One non-canonical duplicate release set is retained in the record. Later duplicates poison
    /// the record and release only their own waiters.
    pub fn attach_terminal(
        &mut self,
        id: TaskId,
        bundle: DropBundle<S>,
        state_release: Option<RemovalCompletion>,
        report_release: RemovalCompletion,
        effects: &mut Vec<Effect<S>>,
    )
        ensures
            ({
                let releases = TerminalReleases { state: state_release, report: report_release };
                &&& final(self)@ == old(self)@.after_terminal(id, bundle, releases)
                &&& effect_views(final(effects)@) == effect_views(old(effects)@)
                    + old(self)@.terminal_effects(id, bundle, releases)
            }),
    {
        broadcast use lemma_effect_views_push;

        let releases = TerminalReleases { state: state_release, report: report_release };
        match self.terminal_position(id, &releases) {
            None => {
                effects.push(Effect::Submit(bundle));
                releases.complete(effects);
                proof {
                    assert(effect_views(effects@) =~= effect_views(old(effects)@)
                        + old(self)@.terminal_effects(id, bundle, releases));
                }
            },
            Some(index) => {
                if self.records[index].terminal.is_none() {
                    self.records[index].terminal = Some(bundle);
                    self.records[index].terminal_releases = Some(releases);
                    proof {
                        assert(self@.records =~= old(self)@.replaced(
                            index as int,
                            ReaperView::with_terminal(
                                old(self)@.records[index as int],
                                bundle,
                                releases,
                            ),
                        ).records);
                    }
                    let ready = self.take_ready_record(id, index);
                    AttemptReaper::submit_ready(ready, effects);
                } else {
                    let mut complete_now = false;
                    if releases.shares_latch(&self.records[index].release) {
                        // The record completes this latch itself.
                    } else if self.records[index].duplicate_releases.is_none() {
                        self.records[index].duplicate_releases = Some(releases);
                    } else {
                        self.records[index].poisoned = true;
                        complete_now = true;
                    }
                    proof {
                        assert(self@.records =~= old(self)@.replaced(
                            index as int,
                            ReaperView::with_terminal(
                                old(self)@.records[index as int],
                                bundle,
                                releases,
                            ),
                        ).records);
                    }
                    effects.push(Effect::Submit(bundle));
                    if complete_now {
                        releases.complete(effects);
                    }
                    proof {
                        assert(effect_views(effects@) =~= effect_views(old(effects)@)
                            + old(self)@.terminal_effects(id, bundle, releases));
                    }
                }
            },
        }
    }

    /// Whether physical reaping still reserves a name.
    pub fn reserves_name(&self, name: &String) -> (reserved: bool)
        ensures
            reserved == self@.reserves(name@),
    {
        let mut i: usize = 0;
        while i < self.activities.len()
            invariant
                i <= self.activities.len(),
                self.activities@ == self@.activities,
                forall|j: int| 0 <= j < i ==> (#[trigger] self@.activities[j]).name@ != name@,
            decreases self.activities.len() - i,
        {
            if self.activities[i].name == *name {
                proof {
                    assert(self@.activities[i as int].name@ == name@);
                }
                return true;
            }
            i = i + 1;
        }
        false
    }

    /// Whether any reaped attempt under a name is still active.
    pub fn is_alive(&self, name: &String) -> (alive: bool)
        ensures
            alive == self@.alive(name@),
    {
        let mut i: usize = 0;
        while i < self.activities.len()
            invariant
                i <= self.activities.len(),
                self.activities@ == self@.activities,
                forall|j: int|
                    0 <= j < i ==> !((#[trigger] self@.activities[j]).name@ == name@
                        && self@.activities[j].activity),
            decreases self.activities.len() - i,
        {
            if self.activities[i].name == *name && self.activities[i].activity {
                proof {
                    assert(self@.activities[i as int].name@ == name@);
                }
                return true;
            }
            i = i + 1;
        }
        false
    }

    /// Names with a reaped attempt that is still active, in the order of registration.
    pub fn alive_names(&self) -> (names: Vec<String>)
        ensures
            names@ == self@.activities.filter(|activity: ReaperActivity| activity.activity)
                .map_values(|activity: ReaperActivity| activity.name),
    {
        let ghost active = |activity: ReaperActivity| activity.activity;
        let ghost name_of = |activity: ReaperActivity| activity.name;
        let mut names: Vec<String> = Vec::new();
        let mut i: usize = 0;
        proof {
            reveal(Seq::filter);
            assert(self@.activities.take(0).filter(active) =~= Seq::empty());
            assert(names@ =~= self@.activities.take(0).filter(active).map_values(name_of));
        }
        while i < self.activities.len()
            invariant
                i <= self.activities.len(),
                self.activities@ == self@.activities,
                active == (|activity: ReaperActivity| activity.activity),
                name_of == (|activity: ReaperActivity| activity.name),
                names@ == self@.activities.take(i as int).filter(active).map_values(name_of),
            decreases self.activities.len() - i,
        {
            let ghost before = self@.activities.take(i as int).filter(active);
            let ghost item = self@.activities[i as int];
            proof {
                assert(self@.activities.take(i + 1).drop_last() =~= self@.activities.take(
                    i as int,
                ));
                assert(self@.activities.take(i + 1).last() == item);
                assert(self@.activities.take(i + 1).filter(active) == if active(item) {
                    before.push(item)
                } else {
                    before
                }) by {
                    reveal(Seq::filter);
                }
            }
            if self.activities[i].activity {
                names.push(self.activities[i].name.clone());
                proof {
                    assert(names@ =~= before.push(item).map_values(name_of));
                }
            }
            i = i + 1;
        }
        proof {
            assert(self@.activities.take(i as int) =~= self@.activities);
        }
        names
    }

    /// Records whether the actor of a reaped attempt is inside an attempt.
    pub fn set_activity(&mut self, id: TaskId, active: bool)
        ensures
            final(self)@ == old(self)@.with_activity(id, active),
    {
        let ghost update = |activity: ReaperActivity|
            if activity.id == id {
                ReaperActivity { activity: active, ..activity }
            } else {
                activity
            };
        let mut i: usize = 0;
        while i < self.activities.len()
            invariant
                i <= self.activities.len(),
                self.records@ == old(self).records@,
                self.activities@.len() == old(self).activities@.len(),
                update == (|activity: ReaperActivity|
                    if activity.id == id {
                        ReaperActivity { activity: active, ..activity }
                    } else {
                        activity
                    }),
                forall|j: int|
                    0 <= j < i ==> self.activities@[j] == update(#[trigger] old(self).activities@[j]),
                forall|j: int|
                    i <= j < self.activities.len() ==> self.activities@[j] == #[trigger] old(
                        self,
                    ).activities@[j],
            decreases self.activities.len() - i,
        {
            if self.activities[i].id == id {
                self.activities[i].activity = active;
            }
            i = i + 1;
        }
        proof {
            assert(self.activities@ =~= old(self).activities@.map_values(update));
        }
    }
}

} // verus!
