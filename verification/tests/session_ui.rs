use warp_tui::hints::{
    AUTO_APPROVE_DISABLED_HINT, AUTO_APPROVE_ENABLED_HINT, FORK_EMPTY_CONVERSATION_HINT, FORK_REQUIRES_CONVERSATION_HINT,
    SWITCH_COMMAND_RUNNING_HINT, SWITCH_CONVERSATION_RUNNING_HINT, SWITCH_LOADING_HINT, SWITCH_UNAVAILABLE_HINT,
};
use warp_tui::restore::RestoreTarget;
use warp_tui::session_io::InputTarget;
use warp_tui::footer::HintTone;
use warp_tui::session_ui::{auto_approve_feedback_expired, toggle_auto_approve_feedback, vim_mode_toggle_target, AutoApproveFeedback, AutoApproveToggle};
use warp_tui::session_ui::{handle_terminal_wakeup, toggle_todo_menu, TerminalWakeup};
use warp_tui::statusline::format_todo_progress;
use warp_tui::session_ui::{composer_chrome, eof_action, exit_summary_token, todo_menu_is_open, toggle_response_summary_visibility, EofAction, SummaryTarget};
use warp_tui::hints::{COST_CONVERSATION_IN_PROGRESS_HINT, COST_EMPTY_CONVERSATION_HINT, COST_NO_ACTIVE_CONVERSATION_HINT};
use warp_tui::session_ui::{
    accept_conversation, active_todo_menu_list_key, attachment_focus_available, auto_approve_feedback_hint,
    focus_current_owner, fork_guard, is_cancellable, keymap_flags, layout_plan, read_only_menu_initial_scroll_top,
    render_warping_auto_approve, sync_open_todo_menu_list, wakeup_refocuses, warping_label, ConversationEntry,
    FocusOwner, HiddenSummaries, KeymapInputs, LayoutInputs, ReadOnlyMenuKind, SessionFlag, SwitchDecision,
    TodoMenuSync,
};
use warp_tui::text::{join_spans, StyleRole};

fn keymap() -> KeymapInputs {
    KeymapInputs {
        restore_loading: false,
        user_controls_running_command: false,
        can_attach_agent_to_running_command: false,
        agent_tagged_in: false,
        input_target: InputTarget::AgentEditor,
        suggestions_visible: false,
        agent_blocked_on_running_command: false,
        has_toggleable_plan: false,
        keyboard_enhancement_supported: false,
        shell_mode: false,
        attachments_should_render: false,
        tabs_focused: false,
    }
}

fn layout() -> LayoutInputs {
    LayoutInputs {
        alt_screen_active: false,
        input_target: InputTarget::AgentEditor,
        user_owns_running_command: false,
        running_command_hint_available: false,
        transcript_empty: false,
        blocker_active: false,
        statusline_config_open: false,
        warping: false,
        response_summary: false,
        inline_menu_open: false,
        read_only_menu_open: false,
    }
}

#[test]
fn shell_mode_reserves_tab_even_when_attachments_render() {
    assert!(attachment_focus_available(false, true));
    assert!(!attachment_focus_available(true, true));
    assert!(!attachment_focus_available(false, false));
    let flags = keymap_flags(KeymapInputs { shell_mode: true, attachments_should_render: true, ..keymap() });
    assert!(!flags.contains(&SessionFlag::AttachmentsAvailable));
    assert!(flags.contains(&SessionFlag::ComposerShortcutsActive));
    let flags = keymap_flags(KeymapInputs { attachments_should_render: true, ..keymap() });
    assert!(flags.contains(&SessionFlag::AttachmentsAvailable));
}

#[test]
fn running_command_attachment_bindings_are_context_scoped() {
    let flags = keymap_flags(KeymapInputs { can_attach_agent_to_running_command: true, input_target: InputTarget::Pty, ..keymap() });
    assert!(flags.contains(&SessionFlag::CanAttachAgentToRunningCommand));
    assert!(!flags.contains(&SessionFlag::ComposerShortcutsActive));
    let tagged = keymap_flags(KeymapInputs { agent_tagged_in: true, ..keymap() });
    assert!(tagged.contains(&SessionFlag::CanDetachAgentFromRunningCommand));
    let with_menu = keymap_flags(KeymapInputs { agent_tagged_in: true, suggestions_visible: true, ..keymap() });
    assert!(!with_menu.contains(&SessionFlag::CanDetachAgentFromRunningCommand));
}

#[test]
fn allow_and_reject_blocked_lrc_actions_are_wired_to_distinct_ctrl_bindings() {
    let flags = keymap_flags(KeymapInputs { agent_blocked_on_running_command: true, ..keymap() });
    assert!(flags.contains(&SessionFlag::CanAllowBlockedLrcAction));
    assert!(flags.contains(&SessionFlag::CanRejectBlockedLrcAction));
    assert!(!keymap_flags(keymap()).contains(&SessionFlag::CanAllowBlockedLrcAction));
}

#[test]
fn keymap_flags_follow_their_inputs() {
    let flags = keymap_flags(KeymapInputs {
        restore_loading: true,
        user_controls_running_command: true,
        has_toggleable_plan: true,
        keyboard_enhancement_supported: true,
        tabs_focused: true,
        ..keymap()
    });
    for flag in [
        SessionFlag::CanCancelRestore,
        SessionFlag::CanHandBackControl,
        SessionFlag::PlanToggleAvailable,
        SessionFlag::KeyboardEnhancementAvailable,
        SessionFlag::OrchestrationTabBarFocused,
    ] {
        assert!(flags.contains(&flag));
    }
}

#[test]
fn finished_question_does_not_steal_focus_from_a_newer_blocker() {
    let mut tabs = true;
    assert_eq!(focus_current_owner(InputTarget::AgentEditor, true, false, &mut tabs), FocusOwner::Blocker);
    assert!(!tabs);
}

#[test]
fn finished_question_refocuses_input_when_no_other_blocker_is_active() {
    let mut tabs = false;
    assert_eq!(focus_current_owner(InputTarget::AgentEditor, false, false, &mut tabs), FocusOwner::Input);
    let mut tabs = false;
    assert_eq!(focus_current_owner(InputTarget::AgentEditor, false, true, &mut tabs), FocusOwner::StatuslineConfig);
    let mut tabs = true;
    assert_eq!(focus_current_owner(InputTarget::AgentEditor, false, false, &mut tabs), FocusOwner::Session);
    assert!(tabs);
    let mut tabs = true;
    assert_eq!(focus_current_owner(InputTarget::Pty, true, false, &mut tabs), FocusOwner::Session);
    assert!(!tabs);
}

#[test]
fn terminal_wakeup_focuses_a_new_long_running_command() {
    // A command became long-running while the composer still held focus.
    assert_eq!(handle_terminal_wakeup(true, true, true), TerminalWakeup { redraw: true, refocus: true });
    assert!(wakeup_refocuses(true, true, true));
    assert!(!wakeup_refocuses(false, true, true));
    assert!(!wakeup_refocuses(true, false, true));
    assert!(!wakeup_refocuses(true, true, false));
}

#[test]
fn long_running_command_keeps_input_hidden() {
    let plan = layout_plan(LayoutInputs { input_target: InputTarget::Pty, ..layout() });
    assert!(plan.pty_input);
    assert!(!plan.composer);
    let plan = layout_plan(LayoutInputs {
        input_target: InputTarget::Pty,
        user_owns_running_command: true,
        running_command_hint_available: true,
        ..layout()
    });
    assert!(plan.running_command_hint);
}

#[test]
fn bootstrap_renders_starting_shell_above_input() {
    let plan = layout_plan(LayoutInputs { input_target: InputTarget::Disabled, transcript_empty: true, ..layout() });
    assert!(plan.starting_shell_hint);
    assert!(plan.composer);
    assert!(plan.zero_state);
    assert!(!plan.warping_indicator);
}

#[test]
fn agent_controlled_alt_screen_keeps_output_and_composer_visible() {
    let plan = layout_plan(LayoutInputs { alt_screen_active: true, ..layout() });
    assert!(plan.alt_screen);
    assert!(plan.composer);
    assert!(!plan.zero_state);
    let user = layout_plan(LayoutInputs { alt_screen_active: true, input_target: InputTarget::Pty, ..layout() });
    assert!(user.pty_input);
    assert!(!user.composer);
}

#[test]
fn blockers_and_the_picker_replace_the_composer() {
    let blocked = layout_plan(LayoutInputs { blocker_active: true, warping: true, ..layout() });
    assert!(!blocked.composer);
    assert!(!blocked.warping_indicator);
    let picker = layout_plan(LayoutInputs { statusline_config_open: true, ..layout() });
    assert!(picker.statusline_config);
    assert!(!picker.composer);
    let warping = layout_plan(LayoutInputs { warping: true, response_summary: true, inline_menu_open: true, ..layout() });
    assert!(warping.warping_indicator);
    assert!(!warping.response_summary);
    assert!(warping.inline_menu);
}

#[test]
fn warping_indicator_labels_and_auto_approve_control() {
    assert_eq!(warping_label(true), "Summarizing conversation");
    assert_eq!(warping_label(false), "Phosphorizing");
    let on = render_warping_auto_approve(true, false, true);
    assert_eq!(join_spans(&on), "▶▶ Auto approve on");
    assert_eq!(on[0].role, StyleRole::SuccessGlyph);
    let hovered = render_warping_auto_approve(false, true, true);
    assert_eq!(join_spans(&hovered), "▶▶ Auto approve off");
    assert_eq!(hovered[0].role, StyleRole::Primary);
    assert_eq!(render_warping_auto_approve(false, false, false)[0].role, StyleRole::Muted);
}

#[test]
fn auto_approve_actions_control_visible_feedback() {
    assert_eq!(auto_approve_feedback_hint(true), AUTO_APPROVE_ENABLED_HINT);
    assert_eq!(auto_approve_feedback_hint(false), AUTO_APPROVE_DISABLED_HINT);
}

#[test]
fn only_running_non_empty_conversations_are_cancellable() {
    assert!(is_cancellable(false, true, false));
    assert!(is_cancellable(false, false, true));
    assert!(!is_cancellable(true, true, false));
    assert!(!is_cancellable(false, false, false));
}

#[test]
fn todo_menu_opens_scrolled_past_completed_items() {
    assert_eq!(read_only_menu_initial_scroll_top(ReadOnlyMenuKind::Todos, 3, 4), 5);
    assert_eq!(read_only_menu_initial_scroll_top(ReadOnlyMenuKind::Todos, 0, 4), 0);
    assert_eq!(read_only_menu_initial_scroll_top(ReadOnlyMenuKind::Status, 3, 4), 0);
    assert_eq!(read_only_menu_initial_scroll_top(ReadOnlyMenuKind::Todos, 1, usize::MAX), usize::MAX);
}

#[test]
fn todo_updates_preserve_scroll_and_close_the_menu_when_the_list_disappears() {
    let key = active_todo_menu_list_key(Some("c1"), true, 2);
    assert_eq!(key, Some(("c1".to_owned(), 2)));
    assert_eq!(active_todo_menu_list_key(Some("c1"), false, 2), None);
    assert_eq!(active_todo_menu_list_key(None, true, 2), None);
    let mut open = None;
    assert_eq!(sync_open_todo_menu_list(&mut open, true, Some(("c1".to_owned(), 2))), TodoMenuSync::Reanchor);
    assert_eq!(sync_open_todo_menu_list(&mut open, true, Some(("c1".to_owned(), 2))), TodoMenuSync::Keep);
    assert_eq!(sync_open_todo_menu_list(&mut open, true, Some(("c1".to_owned(), 3))), TodoMenuSync::Reanchor);
    assert_eq!(sync_open_todo_menu_list(&mut open, true, None), TodoMenuSync::Close);
    assert_eq!(open, None);
    let mut open = Some(("c1".to_owned(), 2));
    assert_eq!(sync_open_todo_menu_list(&mut open, false, Some(("c1".to_owned(), 2))), TodoMenuSync::Keep);
    assert_eq!(open, None);
}

#[test]
fn response_summary_visibility_toggles_per_exchange() {
    let mut hidden = HiddenSummaries::new();
    assert!(hidden.is_visible("e1"));
    hidden.toggle("e1");
    assert!(!hidden.is_visible("e1"));
    assert!(hidden.is_visible("e2"));
    hidden.toggle("e2");
    hidden.toggle("e1");
    assert!(hidden.is_visible("e1"));
    assert!(!hidden.is_visible("e2"));
}

#[test]
fn accepting_a_conversation_checks_the_switch_guards_in_order() {
    let entry = || Some(ConversationEntry { available: true, local_conversation_id: Some("c1".to_owned()), server_conversation_token: Some("t".to_owned()) });
    assert_eq!(accept_conversation(true, false, true, entry()), SwitchDecision::Refused(SWITCH_LOADING_HINT));
    assert_eq!(accept_conversation(false, false, true, entry()), SwitchDecision::Refused(SWITCH_COMMAND_RUNNING_HINT));
    assert_eq!(accept_conversation(false, true, true, entry()), SwitchDecision::Refused(SWITCH_CONVERSATION_RUNNING_HINT));
    assert_eq!(accept_conversation(false, true, false, None), SwitchDecision::Refused(SWITCH_UNAVAILABLE_HINT));
    assert_eq!(
        accept_conversation(false, true, false, Some(ConversationEntry { available: false, local_conversation_id: Some("c1".to_owned()), server_conversation_token: None })),
        SwitchDecision::Refused(SWITCH_UNAVAILABLE_HINT)
    );
    assert_eq!(accept_conversation(false, true, false, entry()), SwitchDecision::Restore(RestoreTarget::Local("c1".to_owned())));
    assert_eq!(
        accept_conversation(false, true, false, Some(ConversationEntry { available: true, local_conversation_id: None, server_conversation_token: Some("t".to_owned()) })),
        SwitchDecision::Restore(RestoreTarget::Server("t".to_owned()))
    );
}

#[test]
fn fork_slash_command_rejects_an_empty_conversation() {
    assert_eq!(fork_guard(false, true, false, true, true), Some(FORK_EMPTY_CONVERSATION_HINT));
    assert_eq!(fork_guard(false, true, false, false, false), Some(FORK_REQUIRES_CONVERSATION_HINT));
    assert_eq!(fork_guard(true, true, false, true, false), Some(SWITCH_LOADING_HINT));
    assert_eq!(fork_guard(false, true, false, true, false), None);
}

#[test]
fn eof_exits_on_empty_input_and_deletes_forward_otherwise() {
    assert_eq!(eof_action(true), EofAction::Exit);
    assert_eq!(eof_action(false), EofAction::DeleteForward);
}

#[test]
fn response_summary_visibility_is_independent_from_the_footer_usage_entry() {
    let mut hidden = HiddenSummaries::new();
    let done = SummaryTarget { latest_exchange_id: Some("e1".to_owned()), is_empty: false, is_done: true };
    assert_eq!(toggle_response_summary_visibility(&mut hidden, Some(&done)), None);
    assert!(!hidden.is_visible("e1"));
    assert_eq!(toggle_response_summary_visibility(&mut hidden, Some(&done)), None);
    assert!(hidden.is_visible("e1"));
}

#[test]
fn cost_slash_command_rejects_an_empty_conversation_like_the_gui() {
    let mut hidden = HiddenSummaries::new();
    let empty = SummaryTarget { latest_exchange_id: None, is_empty: true, is_done: false };
    assert_eq!(toggle_response_summary_visibility(&mut hidden, Some(&empty)), Some(COST_EMPTY_CONVERSATION_HINT));
    let running = SummaryTarget { latest_exchange_id: Some("e1".to_owned()), is_empty: false, is_done: false };
    assert_eq!(toggle_response_summary_visibility(&mut hidden, Some(&running)), Some(COST_CONVERSATION_IN_PROGRESS_HINT));
    assert_eq!(toggle_response_summary_visibility(&mut hidden, None), Some(COST_NO_ACTIVE_CONVERSATION_HINT));
    let no_exchange = SummaryTarget { latest_exchange_id: None, is_empty: false, is_done: true };
    assert_eq!(toggle_response_summary_visibility(&mut hidden, Some(&no_exchange)), Some(COST_NO_ACTIVE_CONVERSATION_HINT));
    assert!(hidden.is_visible("e1"));
}

#[test]
fn input_area_renders_all_six_editor_rows() {
    let chrome = composer_chrome(false, false, false);
    assert_eq!(chrome.composer_rows, 10);
    assert_eq!(chrome.border_role, StyleRole::AccentBorder);
    assert!(!chrome.attachment_row);
    assert!(!chrome.tab_footer);
    let shell = composer_chrome(true, true, true);
    assert_eq!(shell.border_role, StyleRole::ShellCommandAccent);
    assert!(shell.attachment_row);
    assert!(shell.tab_footer);
}

#[test]
fn todo_menu_is_recognised_among_read_only_menus() {
    assert!(todo_menu_is_open(Some(ReadOnlyMenuKind::Todos)));
    assert!(!todo_menu_is_open(Some(ReadOnlyMenuKind::Status)));
    assert!(!todo_menu_is_open(None));
}

#[test]
fn exit_summary_names_only_non_empty_conversations() {
    assert_eq!(exit_summary_token(Some((false, Some("tok")))), Some("tok".to_owned()));
    assert_eq!(exit_summary_token(Some((true, Some("tok")))), None);
    assert_eq!(exit_summary_token(Some((false, None))), None);
    assert_eq!(exit_summary_token(None), None);
}

#[test]
fn auto_approve_slash_command_toggles_selected_conversation_off_on_off() {
    let mut feedback = AutoApproveFeedback { conversation_id: None, timer_armed: false };
    let on = toggle_auto_approve_feedback(&mut feedback, true, Some("c1"), true);
    assert_eq!(on, AutoApproveToggle { hint: Some((HintTone::Success, AUTO_APPROVE_ENABLED_HINT)), abort_previous_timer: false });
    assert_eq!(feedback, AutoApproveFeedback { conversation_id: Some("c1".to_owned()), timer_armed: true });
    let off = toggle_auto_approve_feedback(&mut feedback, true, Some("c1"), false);
    assert_eq!(off, AutoApproveToggle { hint: Some((HintTone::Success, AUTO_APPROVE_DISABLED_HINT)), abort_previous_timer: true });
    let quiet = toggle_auto_approve_feedback(&mut feedback, false, Some("c1"), true);
    assert_eq!(quiet, AutoApproveToggle { hint: None, abort_previous_timer: true });
    assert_eq!(feedback, AutoApproveFeedback { conversation_id: None, timer_armed: false });
    toggle_auto_approve_feedback(&mut feedback, true, None, true);
    auto_approve_feedback_expired(&mut feedback);
    assert_eq!(feedback, AutoApproveFeedback { conversation_id: None, timer_armed: false });
}

#[test]
fn vim_mode_toggle_writes_the_opposite_setting() {
    assert!(vim_mode_toggle_target(false));
    assert!(!vim_mode_toggle_target(vim_mode_toggle_target(false)));
}

#[test]
fn terminal_wakeup_redraws_only_the_focused_session() {
    assert!(handle_terminal_wakeup(true, false, true).redraw);
    assert!(!handle_terminal_wakeup(false, false, true).redraw);
    assert!(!handle_terminal_wakeup(false, true, true).refocus);
}

#[test]
fn todo_menu_renders_active_list_and_toggles_through_shared_suggestions_mode() {
    assert_eq!(format_todo_progress(1, 3, false), "❒ 1/3");
    let open = toggle_todo_menu(None, true);
    assert_eq!(open, Some(ReadOnlyMenuKind::Todos));
    // The title and the completed row precede the current task.
    assert_eq!(read_only_menu_initial_scroll_top(ReadOnlyMenuKind::Todos, 2, 1), 2);
    let replaced = toggle_todo_menu(Some(ReadOnlyMenuKind::Status), true);
    assert_eq!(replaced, Some(ReadOnlyMenuKind::Todos));
    assert_eq!(toggle_todo_menu(replaced, true), None);
    assert_eq!(toggle_todo_menu(None, false), None);
    assert_eq!(toggle_todo_menu(Some(ReadOnlyMenuKind::Status), false), Some(ReadOnlyMenuKind::Status));
}

#[test]
fn finished_todo_list_remains_visible_and_openable() {
    assert_eq!(format_todo_progress(1, 1, true), "✓ 1/1");
    assert_eq!(toggle_todo_menu(None, true), Some(ReadOnlyMenuKind::Todos));
    assert_eq!(read_only_menu_initial_scroll_top(ReadOnlyMenuKind::Todos, 0, 1), 0);
}
