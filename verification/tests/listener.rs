use taskvisor::identity::TaskId;
use taskvisor::registry::listener::{
    exit_step, fence_step, listener_join, listener_panic, ExitStep, FenceStep, Input, ListenerTurns,
    Turn, COMPLETION_BURST_LIMIT,
};
use taskvisor::registry::protocol::{RegistryCommand, RemoveReply};
use tokio::sync::oneshot;

#[test]
fn completions_cannot_starve_control_and_commands() {
    assert_eq!(COMPLETION_BURST_LIMIT, 64);
    let mut turns = ListenerTurns::new();
    for _ in 0..COMPLETION_BURST_LIMIT {
        assert!(!turns.owes_turn());
        assert_eq!(turns.begin(false, true, true), Turn::Select);
        assert!(turns.note(Input::Completion));
    }
    assert!(turns.owes_turn());
    assert_eq!(turns.begin(false, true, true), Turn::Control);
    assert!(!turns.owes_turn());
}

#[test]
fn full_burst_takes_a_command_or_starts_over() {
    for (command_waits, expected) in [(true, Turn::Command), (false, Turn::Select)] {
        let mut turns = ListenerTurns::new();
        for _ in 0..COMPLETION_BURST_LIMIT {
            assert!(turns.note(Input::Completion));
        }
        assert_eq!(turns.begin(false, false, command_waits), expected);
        assert!(!turns.owes_turn());
    }
}

#[test]
fn commands_and_control_reset_the_burst_and_closure_stops() {
    for input in [Input::Command, Input::Control] {
        let mut turns = ListenerTurns::new();
        for _ in 0..63 {
            assert!(turns.note(Input::Completion));
        }
        assert!(turns.note(input));
        assert!(turns.note(Input::Completion));
        assert!(!turns.owes_turn());
    }
    let mut turns = ListenerTurns::new();
    assert_eq!(turns.begin(true, true, true), Turn::Stop);
    assert!(!turns.note(Input::Cancelled));
    assert!(!turns.note(Input::ChannelClosed));
}

#[test]
fn listener_exit_drains_before_it_cancels() {
    let mut step = ExitStep::CloseIntake;
    let mut seen = vec![step];
    for more in [false, true, false, true, false, false, false] {
        step = exit_step(step, more);
        seen.push(step);
    }
    assert_eq!(
        seen,
        vec![
            ExitStep::CloseIntake,
            ExitStep::DrainCommands,
            ExitStep::DrainCommands,
            ExitStep::DrainControl,
            ExitStep::DrainControl,
            ExitStep::CancelRemaining,
            ExitStep::AwaitOwners,
            ExitStep::Done,
        ]
    );
    assert_eq!(exit_step(ExitStep::Done, true), ExitStep::Done);
}

#[test]
fn fence_decides_waiting_commands_first() {
    let (reply, _rx) = oneshot::channel::<RemoveReply>();
    let command: RegistryCommand<String> = RegistryCommand::Remove {
        id: TaskId::new(1),
        reply,
    };
    assert!(matches!(
        fence_step(Some(command)),
        FenceStep::Decide(RegistryCommand::Remove { .. })
    ));
    let none: Option<RegistryCommand<String>> = None;
    assert!(matches!(fence_step(none), FenceStep::Acknowledge));
}

#[test]
fn listener_join_reports_both_failures() {
    let clean = listener_join(None, true);
    assert!(clean.clean && clean.events.is_empty());

    let failed = listener_join(Some(String::from("cancelled")), false);
    assert!(!failed.clean);
    let reasons: Vec<&str> = failed
        .events
        .iter()
        .map(|event| event.reason.as_deref().unwrap())
        .collect();
    assert_eq!(
        reasons,
        vec!["listener join failed: cancelled", "actor runtime join failed"]
    );
    assert_eq!(
        listener_panic("boom").reason.as_deref(),
        Some("listener panic: boom")
    );
}
