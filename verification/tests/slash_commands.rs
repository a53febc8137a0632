use warp_tui::footer::HintTone;
use warp_tui::slash_commands::{statusline_save_hint, StatuslineSave};
use warp_tui::hints::{STATUSLINE_PERSISTENCE_FAILED_HINT, STATUSLINE_RESET_HINT, STATUSLINE_SAVED_HINT};
use warp_tui::status_menu::{compute_status_info, menu};
use warp_tui::text::join_spans;
use warp_tui::follow_up::{QueuedFollowUp, COMPACT_COMMAND};
use warp_tui::hints::{
    COMPACT_AND_REQUIRES_CONVERSATION_HINT, COPY_DEBUGGING_ID_NO_TOKEN_HINT, CREATE_NEW_PROJECT_REQUIRES_DESCRIPTION_HINT,
    EXCHANGE_MENU_REQUIRES_CONVERSATION_HINT, EXPORT_REQUIRES_CONVERSATION_HINT, NEW_CONVERSATION_COMMAND_RUNNING_HINT,
    NLD_DISABLED_HINT, NLD_ENABLED_HINT, NLD_PERSISTENCE_FAILED_HINT, ORCHESTRATE_REQUIRES_CONVERSATION_HINT,
    ORCHESTRATE_REQUIRES_TASK_HINT, QUEUE_QUEUED_HINT, QUEUE_REQUIRES_PROMPT_HINT, THEME_INVALID_ARGUMENT_HINT,
    THEME_PERSISTENCE_FAILED_HINT, VIM_MODE_DISABLED_HINT, VIM_MODE_ENABLED_HINT, VIM_MODE_PERSISTENCE_FAILED_HINT,
};
use warp_tui::slash_commands::{
    after_fork, natural_language_detection_hint, plan_slash_command, theme_hint, vim_mode_hint, CommandMenu,
    ExchangeMenuAction, PostForkAction, SlashCommandAction, SlashCommandContext, SlashCommandKind, SlashCommandPlan,
    ThemeOutcome,
};

fn context() -> SlashCommandContext {
    SlashCommandContext {
        supports_tui: true,
        can_start_new_conversation: true,
        list_skills_enabled: true,
        natural_language_detection_enabled: false,
        has_debugging_token: true,
        turn_is_running: false,
        statusline_slot_free: true,
    }
}

fn plan(kind: SlashCommandKind, name: &str, argument: Option<&str>, selected: Option<&str>) -> SlashCommandPlan {
    let mut queued = None;
    plan_slash_command(&mut queued, kind, name, argument, selected, context())
}

fn hint(tone: HintTone, text: &'static str, clear_input: bool) -> SlashCommandPlan {
    SlashCommandPlan { action: SlashCommandAction::ShowHint(tone, text), clear_input }
}

#[test]
fn status_slash_command_opens_the_status_menu() {
    assert_eq!(
        plan(SlashCommandKind::Status, "/status", None, None),
        SlashCommandPlan { action: SlashCommandAction::ShowStatusMenu, clear_input: true }
    );
    let status = menu(compute_status_info(None, None, None, Some("~/warp".to_owned()), None));
    let rendered = std::iter::once(status.sections[0].title.clone())
        .chain(status.sections[0].rows.iter().map(|r| join_spans(&r.spans)))
        .collect::<Vec<_>>()
        .join("\n");
    assert!(rendered.contains("Status"), "{rendered}");
    assert!(rendered.contains("Version"), "{rendered}");
    assert!(rendered.contains("Session"), "{rendered}");
    assert!(rendered.contains("Conversation ID"), "{rendered}");
    assert!(rendered.contains("Working directory"), "{rendered}");
    assert!(!rendered.contains("Org"), "{rendered}");
    assert!(!rendered.contains("Email"), "{rendered}");
}

#[test]
fn api_keys_slash_command_opens_inline_and_clears_the_input() {
    assert_eq!(
        plan(SlashCommandKind::ApiKeys, "/api-keys", None, None).action,
        SlashCommandAction::OpenMenu(CommandMenu::ApiKeys)
    );
}

#[test]
fn mcp_slash_command_opens_the_mcp_menu() {
    assert_eq!(
        plan(SlashCommandKind::Mcp, "/mcp", None, None),
        SlashCommandPlan { action: SlashCommandAction::OpenMenu(CommandMenu::Mcp), clear_input: false }
    );
}

#[test]
fn gui_only_and_unsupported_commands_do_nothing() {
    assert_eq!(plan(SlashCommandKind::GuiOnly, "/open-repo", None, None), SlashCommandPlan { action: SlashCommandAction::Ignore, clear_input: false });
    let mut queued = Some(QueuedFollowUp { conversation_id: "c1".to_owned(), prompt: "p".to_owned(), seen_in_progress: false });
    let ctx = SlashCommandContext { supports_tui: false, ..context() };
    let planned = plan_slash_command(&mut queued, SlashCommandKind::Queue, "/queue", Some("x"), Some("c1"), ctx);
    assert_eq!(planned.action, SlashCommandAction::Ignore);
    assert!(queued.is_some());
}

#[test]
fn new_and_clear_start_a_conversation_with_the_trimmed_prompt() {
    for kind in [SlashCommandKind::New, SlashCommandKind::Clear, SlashCommandKind::Agent] {
        assert_eq!(
            plan(kind, "/new", Some("  hello "), Some("c1")),
            SlashCommandPlan {
                action: SlashCommandAction::StartNewConversation {
                    kill_descendants_of: Some("c1".to_owned()),
                    prompt: Some("hello".to_owned()),
                },
                clear_input: true,
            }
        );
    }
    assert_eq!(
        plan(SlashCommandKind::New, "/new", Some("   "), None).action,
        SlashCommandAction::StartNewConversation { kill_descendants_of: None, prompt: None }
    );
}

#[test]
fn new_slash_command_is_refused_while_a_command_runs() {
    let mut queued = None;
    let ctx = SlashCommandContext { can_start_new_conversation: false, ..context() };
    assert_eq!(
        plan_slash_command(&mut queued, SlashCommandKind::New, "/new", None, Some("c1"), ctx),
        hint(HintTone::Muted, NEW_CONVERSATION_COMMAND_RUNNING_HINT, false)
    );
}

#[test]
fn compact_plan_and_init_send_the_command_as_a_query() {
    assert_eq!(
        plan(SlashCommandKind::Plan, "/plan", Some("refactor io"), None).action,
        SlashCommandAction::SendPrompt("/plan refactor io".to_owned())
    );
    assert_eq!(
        plan(SlashCommandKind::Init, "/init", None, None).action,
        SlashCommandAction::SendPrompt("/init".to_owned())
    );
    assert_eq!(
        plan(SlashCommandKind::Compact, "/compact", Some(""), None).action,
        SlashCommandAction::SendPrompt("/compact".to_owned())
    );
}

#[test]
fn compact_and_arms_the_follow_up() {
    let mut queued = None;
    let planned = plan_slash_command(&mut queued, SlashCommandKind::CompactAnd, "/compact-and", Some(" next "), Some("c1"), context());
    assert_eq!(planned.action, SlashCommandAction::SendPrompt(COMPACT_COMMAND.to_owned()));
    assert!(planned.clear_input);
    assert_eq!(queued, Some(QueuedFollowUp { conversation_id: "c1".to_owned(), prompt: "next".to_owned(), seen_in_progress: false }));
    assert_eq!(
        plan(SlashCommandKind::CompactAnd, "/compact-and", Some("x"), None),
        hint(HintTone::Muted, COMPACT_AND_REQUIRES_CONVERSATION_HINT, true)
    );
}

#[test]
fn queue_holds_or_sends() {
    let mut queued = None;
    let ctx = SlashCommandContext { turn_is_running: true, ..context() };
    assert_eq!(
        plan_slash_command(&mut queued, SlashCommandKind::Queue, "/queue", Some("later"), Some("c1"), ctx),
        hint(HintTone::Success, QUEUE_QUEUED_HINT, true)
    );
    assert_eq!(queued, Some(QueuedFollowUp { conversation_id: "c1".to_owned(), prompt: "later".to_owned(), seen_in_progress: true }));
    assert_eq!(
        plan(SlashCommandKind::Queue, "/queue", Some("now"), Some("c1")).action,
        SlashCommandAction::SendPrompt("now".to_owned())
    );
    assert_eq!(plan(SlashCommandKind::Queue, "/queue", None, Some("c1")), hint(HintTone::Muted, QUEUE_REQUIRES_PROMPT_HINT, true));
}

#[test]
fn fork_slash_command_is_available_on_both_surfaces() {
    assert_eq!(
        plan(SlashCommandKind::Fork, "/fork", Some(" go "), Some("c1")).action,
        SlashCommandAction::Fork(PostForkAction::SendPrompt(Some(" go ".to_owned())))
    );
    assert_eq!(
        plan(SlashCommandKind::ForkAndCompact, "/fork-and-compact", None, Some("c1")).action,
        SlashCommandAction::Fork(PostForkAction::CompactThenPrompt(None))
    );
}

#[test]
fn fork_from_and_rewind_need_a_conversation() {
    assert_eq!(
        plan(SlashCommandKind::ForkFrom, "/fork-from", None, Some("c1")).action,
        SlashCommandAction::OpenExchangeMenu(ExchangeMenuAction::ForkFrom)
    );
    assert_eq!(
        plan(SlashCommandKind::Rewind, "/rewind", None, Some("c1")).action,
        SlashCommandAction::OpenExchangeMenu(ExchangeMenuAction::Rewind)
    );
    assert_eq!(
        plan(SlashCommandKind::Rewind, "/rewind", None, None),
        hint(HintTone::Muted, EXCHANGE_MENU_REQUIRES_CONVERSATION_HINT, true)
    );
}

#[test]
fn orchestrate_slash_command_requires_active_conversation() {
    assert_eq!(
        plan(SlashCommandKind::Orchestrate, "/orchestrate", Some("a; b"), None),
        hint(HintTone::Muted, ORCHESTRATE_REQUIRES_CONVERSATION_HINT, false)
    );
}

#[test]
fn orchestrate_slash_command_requires_task_argument() {
    assert_eq!(
        plan(SlashCommandKind::Orchestrate, "/orchestrate", Some("  "), Some("c1")),
        hint(HintTone::Muted, ORCHESTRATE_REQUIRES_TASK_HINT, false)
    );
    assert_eq!(
        plan(SlashCommandKind::Orchestrate, "/orchestrate", None, Some("c1")),
        hint(HintTone::Muted, ORCHESTRATE_REQUIRES_TASK_HINT, false)
    );
}

#[test]
fn orchestrate_slash_command_routes_to_tui_pane_group_without_falling_into_gui_only_catch_all() {
    assert_eq!(
        plan(SlashCommandKind::Orchestrate, "/orchestrate", Some(" lint; test "), Some("c1")),
        SlashCommandPlan {
            action: SlashCommandAction::SpawnChildAgents { parent: "c1".to_owned(), tasks: "lint; test".to_owned() },
            clear_input: true,
        }
    );
}

#[test]
fn create_new_project_needs_a_description() {
    assert_eq!(
        plan(SlashCommandKind::CreateNewProject, "/create-new-project", Some(" "), None),
        hint(HintTone::Muted, CREATE_NEW_PROJECT_REQUIRES_DESCRIPTION_HINT, false)
    );
    assert_eq!(
        plan(SlashCommandKind::CreateNewProject, "/create-new-project", Some(" a game "), None).action,
        SlashCommandAction::CreateNewProject("a game".to_owned())
    );
}

#[test]
fn exports_need_a_conversation() {
    assert_eq!(plan(SlashCommandKind::ExportToClipboard, "/export", None, None), hint(HintTone::Muted, EXPORT_REQUIRES_CONVERSATION_HINT, true));
    assert_eq!(plan(SlashCommandKind::ExportToFile, "/export-file", None, None), hint(HintTone::Muted, EXPORT_REQUIRES_CONVERSATION_HINT, false));
    assert_eq!(
        plan(SlashCommandKind::ExportToFile, "/export-file", Some("out.md"), Some("c1")).action,
        SlashCommandAction::ExportToFile(Some("out.md".to_owned()))
    );
    assert_eq!(plan(SlashCommandKind::ExportToClipboard, "/export", None, Some("c1")).action, SlashCommandAction::ExportToClipboard);
}

#[test]
fn copy_debugging_id_shows_error_hint_when_no_server_token() {
    let mut queued = None;
    let ctx = SlashCommandContext { has_debugging_token: false, ..context() };
    assert_eq!(
        plan_slash_command(&mut queued, SlashCommandKind::CopyDebuggingId, "/copy-debugging-id", None, None, ctx),
        hint(HintTone::Error, COPY_DEBUGGING_ID_NO_TOKEN_HINT, true)
    );
}

#[test]
fn statusline_picker_opens_only_into_a_free_slot() {
    assert_eq!(plan(SlashCommandKind::Statusline, "/statusline", None, None).action, SlashCommandAction::OpenStatuslineConfig);
    let mut queued = None;
    let ctx = SlashCommandContext { statusline_slot_free: false, ..context() };
    assert_eq!(
        plan_slash_command(&mut queued, SlashCommandKind::Statusline, "/statusline", None, None, ctx),
        SlashCommandPlan { action: SlashCommandAction::Ignore, clear_input: false }
    );
    assert_eq!(plan(SlashCommandKind::ResetStatusline, "/reset-statusline", None, None).action, SlashCommandAction::ResetStatusline);
}

#[test]
fn skills_menu_needs_the_feature() {
    assert_eq!(plan(SlashCommandKind::InvokeSkill, "/skills", None, None).action, SlashCommandAction::OpenMenu(CommandMenu::Skills));
    let mut queued = None;
    let ctx = SlashCommandContext { list_skills_enabled: false, ..context() };
    assert_eq!(plan_slash_command(&mut queued, SlashCommandKind::InvokeSkill, "/skills", None, None, ctx).action, SlashCommandAction::Ignore);
}

#[test]
fn exit_and_view_logs_slash_commands_are_registered_and_tui_executable() {
    assert_eq!(plan(SlashCommandKind::Exit, "/exit", None, None).action, SlashCommandAction::Exit);
    assert_eq!(plan(SlashCommandKind::ViewLogs, "/view-logs", None, None), SlashCommandPlan { action: SlashCommandAction::CreateLogBundle, clear_input: true });
}

#[test]
fn nld_slash_command_toggles_and_reports_its_effects() {
    assert_eq!(plan(SlashCommandKind::NaturalLanguageDetection, "/nld", None, None).action, SlashCommandAction::SetNaturalLanguageDetection(true));
    assert_eq!(natural_language_detection_hint(true, true), (HintTone::Success, NLD_ENABLED_HINT));
    assert_eq!(natural_language_detection_hint(false, true), (HintTone::Success, NLD_DISABLED_HINT));
    assert_eq!(natural_language_detection_hint(true, false), (HintTone::Muted, NLD_PERSISTENCE_FAILED_HINT));
}

#[test]
fn vim_mode_slash_command_persists_toggle() {
    assert_eq!(plan(SlashCommandKind::VimMode, "/vim", None, None).action, SlashCommandAction::ToggleVimMode);
    assert_eq!(vim_mode_hint(true, true, true), (HintTone::Success, VIM_MODE_ENABLED_HINT));
    assert_eq!(vim_mode_hint(true, false, true), (HintTone::Success, VIM_MODE_DISABLED_HINT));
    assert_eq!(vim_mode_hint(false, true, true), (HintTone::Muted, VIM_MODE_PERSISTENCE_FAILED_HINT));
    assert_eq!(vim_mode_hint(true, true, false), (HintTone::Muted, VIM_MODE_PERSISTENCE_FAILED_HINT));
}

#[test]
fn theme_slash_command_rejects_a_missing_argument() {
    assert_eq!(plan(SlashCommandKind::Theme, "/theme", None, None).action, SlashCommandAction::SetTheme(None));
    assert_eq!(theme_hint(&ThemeOutcome::InvalidArgument), (HintTone::Muted, THEME_INVALID_ARGUMENT_HINT.to_owned()));
}

#[test]
fn theme_slash_command_accepts_direct_selection_and_rejects_invalid_values() {
    assert_eq!(plan(SlashCommandKind::Theme, "/theme", Some("light"), None).action, SlashCommandAction::SetTheme(Some("light".to_owned())));
    assert_eq!(
        theme_hint(&ThemeOutcome::SetExplicit { name: "light".to_owned() }),
        (HintTone::Success, "Theme set to light mode.".to_owned())
    );
    assert_eq!(
        theme_hint(&ThemeOutcome::SetAuto { currently: "dark".to_owned() }),
        (HintTone::Success, "Theme set to auto mode (currently dark).".to_owned())
    );
    assert_eq!(theme_hint(&ThemeOutcome::SaveFailed), (HintTone::Muted, THEME_PERSISTENCE_FAILED_HINT.to_owned()));
}

#[test]
fn after_fork_sends_or_arms_the_prompt() {
    let mut queued = None;
    assert_eq!(after_fork(&mut queued, "f1", PostForkAction::SendPrompt(Some("  hi ".to_owned()))), Some("hi".to_owned()));
    assert_eq!(after_fork(&mut queued, "f1", PostForkAction::SendPrompt(None)), None);
    assert_eq!(queued, None);
    assert_eq!(
        after_fork(&mut queued, "f1", PostForkAction::CompactThenPrompt(Some(" then ".to_owned()))),
        Some(COMPACT_COMMAND.to_owned())
    );
    assert_eq!(queued, Some(QueuedFollowUp { conversation_id: "f1".to_owned(), prompt: "then".to_owned(), seen_in_progress: false }));
}

#[test]
fn menus_open_without_clearing_the_input() {
    for (kind, menu) in [
        (SlashCommandKind::Conversations, CommandMenu::Conversations),
        (SlashCommandKind::Model, CommandMenu::Model),
        (SlashCommandKind::Profile, CommandMenu::Profile),
        (SlashCommandKind::Prompts, CommandMenu::Prompts),
    ] {
        assert_eq!(plan(kind, "/x", None, None), SlashCommandPlan { action: SlashCommandAction::OpenMenu(menu), clear_input: false });
    }
    assert_eq!(plan(SlashCommandKind::AutoApprove, "/auto-approve", None, None).action, SlashCommandAction::ToggleAutoApprove);
    assert_eq!(plan(SlashCommandKind::Usage, "/usage", None, None).action, SlashCommandAction::ReportUsage);
    assert_eq!(plan(SlashCommandKind::Cost, "/cost", None, None).action, SlashCommandAction::ReportCost);
    assert_eq!(plan(SlashCommandKind::Logout, "/logout", None, None).action, SlashCommandAction::Logout);
}

#[test]
fn new_slash_command_kills_descendant_agents() {
    let SlashCommandAction::StartNewConversation { kill_descendants_of, .. } =
        plan(SlashCommandKind::New, "/new", None, Some("parent")).action
    else {
        panic!("/new should start a new conversation");
    };
    assert_eq!(kill_descendants_of.as_deref(), Some("parent"));
}

#[test]
fn auto_approve_slash_command_asks_for_a_toggle() {
    let planned = plan(SlashCommandKind::AutoApprove, "/auto-approve", None, Some("c1"));
    assert_eq!(planned, SlashCommandPlan { action: SlashCommandAction::ToggleAutoApprove, clear_input: true });
}

#[test]
fn saving_statusline_configuration_reports_the_outcome() {
    assert_eq!(statusline_save_hint(StatuslineSave::Configured, true), (HintTone::Success, STATUSLINE_SAVED_HINT));
    assert_eq!(statusline_save_hint(StatuslineSave::Reset, true), (HintTone::Success, STATUSLINE_RESET_HINT));
    assert_eq!(statusline_save_hint(StatuslineSave::Reset, false), (HintTone::Muted, STATUSLINE_PERSISTENCE_FAILED_HINT));
}

#[test]
fn reset_statusline_command_restores_default_items_and_ordering() {
    assert_eq!(
        plan(SlashCommandKind::ResetStatusline, "/reset-statusline", None, None),
        SlashCommandPlan { action: SlashCommandAction::ResetStatusline, clear_input: true }
    );
    assert_eq!(statusline_save_hint(StatuslineSave::Reset, true).1, STATUSLINE_RESET_HINT);
}
