use taskvisor::deferred_drop::DropBundle;
use taskvisor::identity::TaskId;
use taskvisor::registry::actor::AttemptReservation;
use taskvisor::registry::completion::RemovalCompletion;
use taskvisor::registry::coordinator::{
    coordinator_join, physical_owner, physical_owner_in, CoordinatorTurn, PhysicalOwner, ReaperCommand,
    ReaperCoordinator,
};
use taskvisor::registry::effects::Effect;
use taskvisor::registry::pending::PendingJoins;
use taskvisor::registry::reaper::AttemptReaper;

type Source = String;

fn latch(number: u64) -> RemovalCompletion {
    RemovalCompletion::new(number)
}

fn reserve(reaper: &mut AttemptReaper<Source>, id: u64, name: &str, release: u64, active: bool) {
    reaper.register(
        AttemptReservation::new(TaskId::new(id), name.to_string(), latch(release)),
        active,
    );
}

fn attach(
    reaper: &mut AttemptReaper<Source>,
    id: u64,
    ticket: u64,
    state: Option<u64>,
    report: u64,
) -> Vec<Effect<Source>> {
    let mut effects = Vec::new();
    reaper.attach_terminal(
        TaskId::new(id),
        DropBundle::new(ticket),
        state.map(latch),
        latch(report),
        &mut effects,
    );
    effects
}

fn shown(effects: &[Effect<Source>]) -> Vec<String> {
    effects
        .iter()
        .map(|effect| match effect {
            Effect::Submit(bundle) => format!(
                "submit {} {:?} {}",
                bundle.ticket, bundle.output, bundle.poisoned
            ),
            Effect::CompletePhysical(completion) => format!("physical {}", completion.latch),
            Effect::Retain(output) => format!("retain {output}"),
            _ => String::from("other"),
        })
        .collect()
}

#[test]
fn exit_and_report_meet_in_either_order() {
    let mut first: AttemptReaper<Source> = AttemptReaper::new();
    reserve(&mut first, 1, "worker", 10, true);
    assert!(first.reap(TaskId::new(1), latch(10), 5, false).is_empty());
    assert!(first.reserves_name(&String::from("worker")));
    let by_report = attach(&mut first, 1, 2, Some(10), 10);

    let mut second: AttemptReaper<Source> = AttemptReaper::new();
    reserve(&mut second, 1, "worker", 10, true);
    assert!(attach(&mut second, 1, 2, Some(10), 10).is_empty());
    assert!(second.reserves_name(&String::from("worker")));
    let by_exit = second.reap(TaskId::new(1), latch(10), 5, false);

    assert_eq!(shown(&by_report), shown(&by_exit));
    assert_eq!(
        shown(&by_exit),
        vec!["submit 2 Some(5) false", "physical 10", "physical 10", "physical 10"]
    );
    for reaper in [&first, &second] {
        assert_eq!(reaper.active(), 0);
        assert!(!reaper.reserves_name(&String::from("worker")));
    }
}

#[test]
fn report_without_attempt_releases_at_once() {
    let mut reaper: AttemptReaper<Source> = AttemptReaper::new();
    assert_eq!(
        shown(&attach(&mut reaper, 1, 2, None, 10)),
        vec!["submit 2 None false", "physical 10"]
    );
}

#[test]
fn duplicate_reports_keep_one_release_set_and_poison_beyond_it() {
    let mut reaper: AttemptReaper<Source> = AttemptReaper::new();
    reserve(&mut reaper, 1, "duplicate-terminal-attach", 10, true);
    assert!(attach(&mut reaper, 1, 100, None, 11).is_empty());
    assert_eq!(
        shown(&attach(&mut reaper, 1, 101, None, 12)),
        vec!["submit 101 None false"]
    );
    assert_eq!(
        shown(&attach(&mut reaper, 1, 102, None, 13)),
        vec!["submit 102 None false", "physical 13"]
    );
    assert_eq!(
        shown(&attach(&mut reaper, 1, 103, None, 10)),
        vec!["submit 103 None false"],
        "an alias of the record's own latch waits for the record"
    );
    assert_eq!(reaper.active(), 1);
    assert_eq!(
        shown(&reaper.reap(TaskId::new(1), latch(10), 7, false)),
        vec![
            "submit 100 Some(7) true",
            "physical 10",
            "physical 11",
            "physical 12"
        ]
    );
    assert_eq!(reaper.active(), 0);
}

#[test]
fn unexpected_outputs_are_kept_forever() {
    let mut reaper: AttemptReaper<Source> = AttemptReaper::new();
    assert_eq!(
        shown(&reaper.reap(TaskId::new(1), latch(10), 7, false)),
        vec!["retain 7"]
    );
    reserve(&mut reaper, 1, "worker", 10, true);
    assert!(reaper.reap(TaskId::new(1), latch(10), 8, false).is_empty());
    assert_eq!(
        shown(&reaper.reap(TaskId::new(1), latch(10), 9, false)),
        vec!["retain 9"]
    );
    assert_eq!(
        shown(&attach(&mut reaper, 1, 2, None, 10)),
        vec!["submit 2 Some(8) true", "physical 10", "physical 10"],
        "a second output poisons the record"
    );
}

#[test]
fn poisoned_exit_poisons_the_bundle() {
    let mut reaper: AttemptReaper<Source> = AttemptReaper::new();
    reserve(&mut reaper, 1, "worker", 10, true);
    let _ = reaper.reap(TaskId::new(1), latch(10), 5, true);
    assert_eq!(
        shown(&attach(&mut reaper, 1, 2, None, 10))[0],
        "submit 2 Some(5) true"
    );
}

#[test]
fn report_prefers_its_own_latch_then_an_open_record() {
    let mut reaper: AttemptReaper<Source> = AttemptReaper::new();
    reserve(&mut reaper, 1, "first", 10, true);
    reserve(&mut reaper, 1, "second", 20, false);
    assert!(attach(&mut reaper, 1, 2, None, 20).is_empty());
    assert!(attach(&mut reaper, 1, 3, None, 99).is_empty());
    assert_eq!(
        shown(&reaper.reap(TaskId::new(1), latch(20), 1, false)),
        vec!["submit 2 Some(1) false", "physical 20", "physical 20"]
    );
    assert!(!reaper.reserves_name(&String::from("second")));
    assert!(reaper.reserves_name(&String::from("first")));
    assert_eq!(
        shown(&reaper.reap(TaskId::new(1), latch(10), 4, false)),
        vec!["submit 3 Some(4) false", "physical 10", "physical 99"]
    );
}

#[test]
fn only_active_attempts_are_alive() {
    let mut reaper: AttemptReaper<Source> = AttemptReaper::new();
    reserve(&mut reaper, 1, "a", 1, true);
    reserve(&mut reaper, 2, "b", 2, false);
    assert!(reaper.is_alive(&String::from("a")));
    assert!(!reaper.is_alive(&String::from("b")));
    assert_eq!(reaper.alive_names(), vec!["a"]);
    reaper.set_activity(TaskId::new(2), true);
    reaper.set_activity(TaskId::new(1), false);
    assert_eq!(reaper.alive_names(), vec!["b"]);
    assert!(reaper.reserves_name(&String::from("a")));
}

#[test]
fn pending_owners_are_counted_per_task() {
    let mut pending = PendingJoins::new();
    let id = TaskId::new(1);
    assert!(pending.is_empty());
    pending.inc_with_name(id, String::from("worker"));
    pending.inc(id);
    assert!(pending.contains(id));
    assert_eq!(pending.pending_names(), vec!["worker"]);
    assert!(!pending.dec(id));
    assert!(pending.contains(id));
    assert!(pending.dec(id));
    assert!(pending.is_empty());
    assert!(pending.pending_names().is_empty());
    assert!(pending.dec(id), "a stray decrement finds nobody waiting");
    pending.name(id, String::from("late"));
    assert!(pending.pending_names().is_empty());
    pending.inc(id);
    pending.name(id, String::from("late"));
    assert_eq!(pending.pending_names(), vec!["late"]);
}

#[test]
fn coordinator_drains_after_closure() {
    let mut coordinator = ReaperCoordinator::new();
    assert_eq!(
        coordinator.turn(true),
        CoordinatorTurn::Wait {
            commands: true,
            operations: false
        }
    );
    assert_eq!(coordinator.receive(Some(ReaperCommand::Reap(7))), Some(7));
    assert_eq!(
        coordinator.receive(Some(ReaperCommand::<i32>::Close)),
        None
    );
    assert_eq!(coordinator.receive(Some(ReaperCommand::Reap(8))), Some(8));
    assert_eq!(
        coordinator.turn(false),
        CoordinatorTurn::Wait {
            commands: false,
            operations: true
        }
    );
    assert_eq!(coordinator.turn(true), CoordinatorTurn::Stop);

    let mut lost = ReaperCoordinator::new();
    assert_eq!(lost.receive(None::<ReaperCommand<i32>>), None);
    assert_eq!(lost.turn(true), CoordinatorTurn::Stop);
}

#[test]
fn physical_owner_falls_back_and_join_is_bounded() {
    assert_eq!(physical_owner_in(true, false), PhysicalOwner::Coordinator);
    assert_eq!(physical_owner_in(false, true), PhysicalOwner::Detached);
    assert_eq!(physical_owner_in(false, false), PhysicalOwner::Retained);
    assert_eq!(physical_owner(true), PhysicalOwner::Coordinator);
    assert_eq!(physical_owner(false), PhysicalOwner::Retained);
    let runtime = tokio::runtime::Builder::new_current_thread()
        .build()
        .unwrap();
    runtime.block_on(async {
        assert_eq!(physical_owner(false), PhysicalOwner::Detached);
    });
    assert!(coordinator_join(1, Some(false)));
    assert!(coordinator_join(0, None));
    assert!(coordinator_join(0, Some(true)));
    assert!(!coordinator_join(0, Some(false)));
}

#[test]
fn ready_record_is_taken_only_where_it_is() {
    let mut reaper = AttemptReaper::new();
    assert!(reaper.take_ready_record(TaskId::new(1), 0).is_none());
    reserve(&mut reaper, 1, "worker", 1, true);
    assert!(reaper.take_ready_record(TaskId::new(1), 0).is_none());
    assert!(reaper.take_ready_record(TaskId::new(1), 5).is_none());
    assert!(reaper.take_ready_record(TaskId::new(2), 0).is_none());
    assert_eq!(reaper.active(), 1);
    assert!(reaper.reserves_name(&String::from("worker")));
}
