use warp_tui::session_io::{
    forward_user_pty_bytes, handle_terminal_resize, plan_agent_command, plan_user_command, route_submission,
    write_child_harness_command, ActiveBlockState, CommandExecutionSource, InputTarget, LinkedWorkflowData,
    PtyIntent, SizeUpdate, SubmitRoute, TerminalSessionEvent, TerminalSize, UserCommandOutcome,
};
use warp_tui::hints::COMMAND_ALREADY_RUNNING_HINT;

fn idle_prompt() -> ActiveBlockState {
    ActiveBlockState { bootstrapped: true, active_and_long_running: false, in_band_command_block: false, session_id: Some(7) }
}

#[test]
fn interrupt_event_projects_to_high_level_pty_intent() {
    let event = TerminalSessionEvent::InterruptPty;
    assert!(matches!(event.pty_intent(), Some(PtyIntent::Interrupt)));
}

#[test]
fn user_input_event_projects_to_raw_user_bytes() {
    let event = TerminalSessionEvent::WriteUserInput(b"hello\r".to_vec());
    let Some(PtyIntent::WriteBytes(bytes)) = event.pty_intent() else {
        panic!("user input event should map to raw PTY bytes");
    };
    assert_eq!(&*bytes, b"hello\r");
}

#[test]
fn resize_event_maps_to_pty_resize_intent() {
    let last_size = TerminalSize { rows: 24, columns: 120 };
    let size_update = SizeUpdate::from_cell_dimensions(last_size, 8, 42);
    let event = TerminalSessionEvent::Resize(size_update);
    let Some(PtyIntent::Resize(actual_update)) = event.pty_intent() else {
        panic!("resize event should map to a PTY resize intent");
    };
    assert_eq!(actual_update.new.rows, 8);
    assert_eq!(actual_update.new.columns, 42);
}

#[test]
fn terminal_resize_applies_only_real_changes() {
    let mut last = TerminalSize { rows: 24, columns: 80 };
    assert_eq!(handle_terminal_resize(&mut last, 0, 10), None);
    assert_eq!(handle_terminal_resize(&mut last, 80, 24), None);
    let update = handle_terminal_resize(&mut last, 100, 30).expect("size changed");
    assert_eq!(update.old, TerminalSize { rows: 24, columns: 80 });
    assert_eq!(update.new, TerminalSize { rows: 30, columns: 100 });
    assert!(update.rows_or_columns_changed());
    assert_eq!(last, TerminalSize { rows: 30, columns: 100 });
}

#[test]
fn stale_user_pty_bytes_are_dropped_after_agent_takes_control_or_is_tagged_in() {
    let forwarded = forward_user_pty_bytes(b"user", false);
    assert_eq!(forwarded, Some(TerminalSessionEvent::WriteUserInput(b"user".to_vec())));
    assert_eq!(forward_user_pty_bytes(b"tagged", true), None);
    assert_eq!(forward_user_pty_bytes(b"agent", true), None);
}

#[test]
fn child_harness_command_is_typed_then_entered() {
    let events = write_child_harness_command("oz run");
    assert_eq!(
        events,
        vec![
            TerminalSessionEvent::WriteUserInput(b"oz run".to_vec()),
            TerminalSessionEvent::WriteUserInput(vec![b'\r']),
        ]
    );
}

#[test]
fn submit_is_blocked_during_bootstrap_and_allowed_at_prompt() {
    assert_eq!(route_submission("draft", InputTarget::Disabled, true, false, false), SubmitRoute::Ignore);
    assert_eq!(route_submission("draft", InputTarget::Pty, true, false, false), SubmitRoute::Ignore);
    assert_eq!(route_submission("draft", InputTarget::AgentEditor, false, false, false), SubmitRoute::Ignore);
    assert_eq!(route_submission("draft", InputTarget::AgentEditor, true, false, false), SubmitRoute::AgentInput);
    assert_eq!(route_submission("ls", InputTarget::AgentEditor, true, false, true), SubmitRoute::ShellCommand);
    assert_eq!(route_submission("stop it", InputTarget::AgentEditor, true, true, true), SubmitRoute::TerminalUsePrompt);
    // A blank line is not a prompt for the agent driving the command.
    assert_eq!(route_submission("  ", InputTarget::AgentEditor, true, true, false), SubmitRoute::AgentInput);
}

#[test]
fn accepted_command_history_preserves_workflow_metadata() {
    let mut pending = Some(LinkedWorkflowData::Command("deploy {{environment}}".to_owned()));
    let outcome = plan_user_command("deploy production", idle_prompt(), false, &mut pending);
    let UserCommandOutcome::Execute { event, cancel_selected_conversation } = outcome else {
        panic!("command should execute");
    };
    assert_eq!(event.command, "deploy production");
    assert_eq!(event.workflow_id, None);
    assert_eq!(event.workflow_command.as_deref(), Some("deploy {{environment}}"));
    assert_eq!(event.session_id, 7);
    assert_eq!(event.source, CommandExecutionSource::User);
    assert!(!cancel_selected_conversation);
    assert_eq!(pending, None);
}

#[test]
fn workflow_ids_are_attached_once() {
    let mut pending = Some(LinkedWorkflowData::Id("wf-1".to_owned()));
    let UserCommandOutcome::Execute { event, .. } = plan_user_command("make", idle_prompt(), true, &mut pending) else {
        panic!("command should execute");
    };
    assert_eq!(event.workflow_id.as_deref(), Some("wf-1"));
    let UserCommandOutcome::Execute { event, cancel_selected_conversation } =
        plan_user_command("make", idle_prompt(), true, &mut pending)
    else {
        panic!("command should execute");
    };
    assert_eq!(event.workflow_id, None);
    assert!(cancel_selected_conversation);
}

#[test]
fn user_commands_are_refused_while_the_pty_is_busy() {
    let mut pending = Some(LinkedWorkflowData::Id("wf-1".to_owned()));
    assert_eq!(plan_user_command("   ", idle_prompt(), false, &mut pending), UserCommandOutcome::Blank);
    let no_session = ActiveBlockState { session_id: None, ..idle_prompt() };
    assert_eq!(plan_user_command("ls", no_session, false, &mut pending), UserCommandOutcome::NoSession);
    let bootstrapping = ActiveBlockState { bootstrapped: false, ..idle_prompt() };
    assert_eq!(
        plan_user_command("ls", bootstrapping, false, &mut pending),
        UserCommandOutcome::Rejected(COMMAND_ALREADY_RUNNING_HINT)
    );
    let long_running = ActiveBlockState { active_and_long_running: true, ..idle_prompt() };
    assert_eq!(
        plan_user_command("ls", long_running, false, &mut pending),
        UserCommandOutcome::Rejected(COMMAND_ALREADY_RUNNING_HINT)
    );
    assert!(pending.is_some());
    let in_band = ActiveBlockState { active_and_long_running: true, in_band_command_block: true, ..idle_prompt() };
    assert!(matches!(plan_user_command("ls", in_band, false, &mut pending), UserCommandOutcome::Execute { .. }));
}

#[test]
fn agent_commands_need_a_session_and_a_conversation() {
    assert_eq!(plan_agent_command("a1", "ls", None, Some("c1")), None);
    assert_eq!(plan_agent_command("a1", "ls", Some(3), None), None);
    let event = plan_agent_command("a1", "ls", Some(3), Some("c1")).expect("planned");
    assert_eq!(event.command, "ls");
    assert_eq!(event.session_id, 3);
    assert_eq!(
        event.source,
        CommandExecutionSource::Agent { action_id: "a1".to_owned(), conversation_id: "c1".to_owned() }
    );
}
