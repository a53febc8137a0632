//! Footer hints and one-line messages the session surface shows, and the
//! controls rows that replace the statusline while an MCP surface is open.
use vstd::prelude::*;
use vstd::string::*;
use crate::text::{StyleRole, StyledSpan, SpanView, spans_view, plain, owned, span};

verus! {

/// Shown while the ctrl-c exit confirmation is armed.
pub const CTRL_C_EXIT_HINT: &'static str = "ctrl-c again to exit";
/// Shown while the ctrl-c kill-child window is armed.
pub const CTRL_C_KILL_CHILD_HINT: &'static str = "ctrl-c again to kill child agent";
/// Shown while the agent is manually tagged into a running command.
pub const RUNNING_COMMAND_DETACH_HINT: &'static str = "ctrl-c to return to command";
pub const STARTING_SHELL_HINT: &'static str = "Starting shell...";
pub const SETTINGS_PARSE_FAILED_HINT: &'static str = "Settings failed to load: invalid syntax.";
pub const SETTINGS_INVALID_VALUES_HINT: &'static str = "Settings failed to load: invalid values.";
pub const SETTINGS_UNKNOWN_KEYS_HINT: &'static str =
    "Settings file has unrecognized keys; they're ignored.";
pub const COMMAND_ALREADY_RUNNING_HINT: &'static str = "cannot run — command already running";
pub const NEW_CONVERSATION_COMMAND_RUNNING_HINT: &'static str =
    "cannot start new conversation while terminal command is running";
pub const SWITCH_COMMAND_RUNNING_HINT: &'static str =
    "Cannot switch conversations while a command is in progress.";
pub const SWITCH_CONVERSATION_RUNNING_HINT: &'static str =
    "Cannot switch conversations while the current conversation is in progress.";
pub const SWITCH_LOADING_HINT: &'static str = "Another conversation is already loading.";
pub const SWITCH_UNAVAILABLE_HINT: &'static str = "That conversation is no longer available.";
pub const LOADING_CONVERSATION_HINT: &'static str = "Loading conversation…";
pub const ZERO_STATE_ASCII_INITIAL_LOAD_FAILED_HINT: &'static str =
    "Could not load custom ASCII art. Using the built-in mark.";
pub const ZERO_STATE_ASCII_RELOAD_FAILED_HINT: &'static str =
    "Could not reload custom ASCII art. Keeping the current object.";
pub const COMPACT_AND_REQUIRES_CONVERSATION_HINT: &'static str =
    "/compact-and requires an active conversation";
pub const QUEUE_REQUIRES_CONVERSATION_HINT: &'static str = "/queue requires an active conversation";
pub const QUEUE_REQUIRES_PROMPT_HINT: &'static str = "/queue requires a prompt argument";
pub const QUEUE_QUEUED_HINT: &'static str = "Queued — will send when the current turn finishes";
pub const FORK_REQUIRES_CONVERSATION_HINT: &'static str = "/fork requires an active conversation";
pub const FORK_EMPTY_CONVERSATION_HINT: &'static str =
    "Nothing to fork \u{2014} start a conversation first.";
pub const FORK_FAILED_HINT: &'static str = "Failed to fork the conversation";
pub const FORKED_HINT: &'static str = "Forked conversation";
pub const ORCHESTRATE_REQUIRES_CONVERSATION_HINT: &'static str =
    "/orchestrate requires an active conversation";
pub const ORCHESTRATE_REQUIRES_TASK_HINT: &'static str =
    "Please describe at least one task after /orchestrate (separate multiple tasks with ';')";
pub const CREATE_NEW_PROJECT_REQUIRES_DESCRIPTION_HINT: &'static str =
    "Please describe the project you want to create after /create-new-project";
pub const EXCHANGE_MENU_REQUIRES_CONVERSATION_HINT: &'static str =
    "No active conversation to choose from";
pub const EXPORT_REQUIRES_CONVERSATION_HINT: &'static str = "No active conversation to export";
pub const EXPORTED_TO_CLIPBOARD_HINT: &'static str = "Conversation copied to clipboard";
pub const REWIND_FAILED_HINT: &'static str = "Failed to rewind the conversation";
pub const REWOUND_HINT: &'static str = "Rewound conversation and reverted file edits";
pub const STATUSLINE_SAVED_HINT: &'static str = "Statusline configuration saved.";
pub const STATUSLINE_RESET_HINT: &'static str = "Statusline reset to defaults.";
pub const STATUSLINE_PERSISTENCE_FAILED_HINT: &'static str =
    "Could not save the statusline configuration.";
pub const COPY_SELECTION_HINT: &'static str = "copied to clipboard";
pub const COPY_FAILED_HINT: &'static str = "failed to copy to clipboard";
pub const COPY_DEBUGGING_ID_HINT: &'static str =
    "Debugging id copied — attach it to your Phosphor issue";
pub const COPY_DEBUGGING_ID_NO_TOKEN_HINT: &'static str =
    "No debugging id for this conversation yet.";
pub const LOG_BUNDLE_FAILED_HINT: &'static str = "Failed to create log bundle (check logs)";
pub const AUTO_APPROVE_ENABLED_HINT: &'static str = "Auto approve on";
pub const AUTO_APPROVE_DISABLED_HINT: &'static str = "Auto approve off";
pub const NLD_ENABLED_HINT: &'static str = "Natural language detection enabled.";
pub const NLD_DISABLED_HINT: &'static str = "Natural language detection disabled.";
pub const NLD_PERSISTENCE_FAILED_HINT: &'static str =
    "Could not save the natural language detection setting.";
pub const VIM_MODE_ENABLED_HINT: &'static str = "Vim mode enabled.";
pub const VIM_MODE_DISABLED_HINT: &'static str = "Vim mode disabled.";
pub const VIM_MODE_PERSISTENCE_FAILED_HINT: &'static str = "Could not save the vim mode setting.";
pub const THEME_INVALID_ARGUMENT_HINT: &'static str = "Theme must be auto, light, or dark.";
pub const THEME_PERSISTENCE_FAILED_HINT: &'static str = "Could not save the theme setting.";
pub const COST_NO_ACTIVE_CONVERSATION_HINT: &'static str =
    "Cannot show conversation cost: no active conversation";
pub const COST_EMPTY_CONVERSATION_HINT: &'static str =
    "Cannot show conversation cost: conversation is empty";
pub const COST_CONVERSATION_IN_PROGRESS_HINT: &'static str =
    "Cannot show conversation cost: conversation is in progress";
pub const CLOUD_CONVERSATIONS_UNAVAILABLE_HINT: &'static str =
    "Could not load cloud conversations. Showing local conversations only.";
pub const MCP_INSTALL_FLOW_UNAVAILABLE_HINT: &'static str =
    "Unable to open the MCP installation flow";
pub const RESTORE_UNSUPPORTED_CONVERSATION_MESSAGE: &'static str =
    "The Phosphor TUI only supports Phosphor Agent conversations.";
pub const RESTORE_LOAD_FAILED_MESSAGE: &'static str = "The conversation could not be loaded.";
pub const RESTORE_MISMATCH_MESSAGE: &'static str =
    "The restored conversation did not match the requested conversation.";

/// Which way a settings-file load went wrong.
#[derive(Clone, Copy, Debug, PartialEq, Eq, Structural)]
pub enum SettingsFileErrorKind {
    FileParseFailed,
    InvalidSettings,
    UnknownKeys,
}

/// One-line summary for the footer's transient error slot.
pub fn settings_file_error_hint(error: SettingsFileErrorKind) -> (r: &'static str)
    ensures
        error == SettingsFileErrorKind::FileParseFailed ==> r == SETTINGS_PARSE_FAILED_HINT,
        error == SettingsFileErrorKind::InvalidSettings ==> r == SETTINGS_INVALID_VALUES_HINT,
        error == SettingsFileErrorKind::UnknownKeys ==> r == SETTINGS_UNKNOWN_KEYS_HINT,
{
    match error {
        SettingsFileErrorKind::FileParseFailed => SETTINGS_PARSE_FAILED_HINT,
        SettingsFileErrorKind::InvalidSettings => SETTINGS_INVALID_VALUES_HINT,
        SettingsFileErrorKind::UnknownKeys => SETTINGS_UNKNOWN_KEYS_HINT,
    }
}

/// When the configured zero-state ASCII art failed to load.
#[derive(Clone, Copy, Debug, PartialEq, Eq, Structural)]
pub enum ZeroStateLoadFailure {
    InitialLoad,
    Reload,
}

/// Footer hint for a zero-state ASCII-art load failure.
pub fn zero_state_ascii_load_failure_hint(failure: ZeroStateLoadFailure) -> (r: &'static str)
    ensures
        failure == ZeroStateLoadFailure::InitialLoad ==> r
            == ZERO_STATE_ASCII_INITIAL_LOAD_FAILED_HINT,
        failure == ZeroStateLoadFailure::Reload ==> r == ZERO_STATE_ASCII_RELOAD_FAILED_HINT,
{
    match failure {
        ZeroStateLoadFailure::InitialLoad => ZERO_STATE_ASCII_INITIAL_LOAD_FAILED_HINT,
        ZeroStateLoadFailure::Reload => ZERO_STATE_ASCII_RELOAD_FAILED_HINT,
    }
}

/// `Log bundle saved to <path>`, with the path as it displays.
pub fn log_bundle_success_message(path: &str) -> (r: String)
    ensures
        r@ == "Log bundle saved to "@ + path@,
{
    let mut out = owned("Log bundle saved to ");
    out.append(path);
    out
}

/// `<name> installed and starting`, after an MCP server was installed.
pub fn mcp_installed_message(name: &str) -> (r: String)
    ensures
        r@ == name@ + " installed and starting"@,
{
    let mut out = owned(name);
    out.append(" installed and starting");
    out
}

/// Where a conversation was written, and whether a file was replaced.
pub fn export_file_success_message(path: &str, overwrote_existing: bool) -> (r: String)
    ensures
        overwrote_existing ==> r@ == "Conversation exported to "@ + path@
            + " (overwrote existing file)"@,
        !overwrote_existing ==> r@ == "Conversation exported to "@ + path@,
{
    let mut out = owned("Conversation exported to ");
    out.append(path);
    if overwrote_existing {
        out.append(" (overwrote existing file)");
    }
    out
}

/// Why `/cost` cannot report, given the selected conversation as
/// `(is_empty, is_done)`: no conversation, an empty one, or one still in
/// progress; `None` when the report is available.
pub open spec fn cost_unavailable(selected_conversation: Option<(bool, bool)>) -> Option<&'static str> {
    match selected_conversation {
        None => Some(COST_NO_ACTIVE_CONVERSATION_HINT),
        Some((is_empty, is_done)) => if is_empty {
            Some(COST_EMPTY_CONVERSATION_HINT)
        } else if !is_done {
            Some(COST_CONVERSATION_IN_PROGRESS_HINT)
        } else {
            None
        },
    }
}

/// Why `/cost` cannot report on the selected conversation, if it cannot.
pub fn cost_command_unavailable_hint(selected_conversation: Option<(bool, bool)>) -> (r: Option<
    &'static str,
>)
    ensures
        r == cost_unavailable(selected_conversation),
{
    match selected_conversation {
        None => Some(COST_NO_ACTIVE_CONVERSATION_HINT),
        Some((true, _)) => Some(COST_EMPTY_CONVERSATION_HINT),
        Some((false, false)) => Some(COST_CONVERSATION_IN_PROGRESS_HINT),
        Some((false, true)) => None,
    }
}

/// What Enter does on an MCP server row.
#[derive(Clone, Copy, Debug, PartialEq, Eq, Structural)]
pub enum McpAction {
    Enable,
    Start,
    Stop,
    Retry,
    ReopenAuthorization,
    LogOut,
}

pub open spec fn mcp_hint(action: McpAction) -> Option<Seq<char>> {
    match action {
        McpAction::Enable => Some("to install and enable"@),
        McpAction::Start => Some("to start"@),
        McpAction::Stop => Some("to stop"@),
        McpAction::Retry => Some("to retry"@),
        McpAction::ReopenAuthorization => Some("to authenticate"@),
        McpAction::LogOut => None,
    }
}

/// The Enter-key hint for an MCP row's primary action, or `None` when Enter
/// does not perform it from the menu.
pub fn mcp_primary_action_hint(action: McpAction) -> (r: Option<&'static str>)
    ensures
        mcp_hint(action) is None <==> r is None,
        r is Some ==> r->0@ == mcp_hint(action)->0,
{
    match action {
        McpAction::Enable => Some("to install and enable"),
        McpAction::Start => Some("to start"),
        McpAction::Stop => Some("to stop"),
        McpAction::Retry => Some("to retry"),
        McpAction::ReopenAuthorization => Some("to authenticate"),
        McpAction::LogOut => None,
    }
}

/// `Enter <hint>  ` when there is a primary action to advertise.
pub open spec fn enter_control(hint: Option<Seq<char>>) -> Seq<SpanView> {
    match hint {
        Some(h) => seq![
            plain("Enter"@, StyleRole::Primary),
            plain(" "@ + h + "  "@, StyleRole::Muted),
        ],
        None => Seq::empty(),
    }
}

/// The `/mcp` menu's controls row: Enter for the selected row's primary
/// action, Ctrl+R to log out when possible, and always Esc to close.
pub open spec fn mcp_menu_footer_spans(primary_action: Option<McpAction>, can_log_out: bool) -> Seq<
    SpanView,
> {
    enter_control(
        match primary_action {
            Some(a) => mcp_hint(a),
            None => None,
        },
    ) + (if can_log_out {
        seq![
            plain("Ctrl+R"@, StyleRole::Primary),
            plain(" to log out & remove credentials  "@, StyleRole::Muted),
        ]
    } else {
        Seq::empty()
    }) + seq![plain("Esc"@, StyleRole::Primary), plain(" to close"@, StyleRole::Muted)]
}

/// The install flow's controls row: Enter for its primary action when it has
/// one, and Esc to cancel.
pub open spec fn mcp_install_footer_spans(primary_action_hint: Option<Seq<char>>) -> Seq<SpanView> {
    enter_control(primary_action_hint) + seq![
        plain("Esc"@, StyleRole::Primary),
        plain(" to cancel"@, StyleRole::Muted),
    ]
}

fn push_enter_control(out: &mut Vec<StyledSpan>, hint: Option<&str>)
    ensures
        spans_view(final(out)@) == spans_view(old(out)@) + enter_control(
            match hint {
                Some(h) => Some(h@),
                None => None,
            },
        ),
{
    let ghost start = out@;
    if let Some(h) = hint {
        out.push(span(owned("Enter"), StyleRole::Primary));
        let mut text = owned(" ");
        text.append(h);
        text.append("  ");
        out.push(span(text, StyleRole::Muted));
    }
    assert(spans_view(out@) =~= spans_view(start) + enter_control(
        match hint {
            Some(h) => Some(h@),
            None => None,
        },
    ));
}

/// Renders the `/mcp` menu's controls row.
pub fn render_mcp_menu_footer(primary_action: Option<McpAction>, can_log_out: bool) -> (r: Vec<
    StyledSpan,
>)
    ensures
        spans_view(r@) == mcp_menu_footer_spans(primary_action, can_log_out),
{
    let mut out: Vec<StyledSpan> = Vec::new();
    let hint = match primary_action {
        Some(a) => mcp_primary_action_hint(a),
        None => None,
    };
    push_enter_control(&mut out, hint);
    let ghost mid = out@;
    if can_log_out {
        out.push(span(owned("Ctrl+R"), StyleRole::Primary));
        out.push(span(owned(" to log out & remove credentials  "), StyleRole::Muted));
    }
    out.push(span(owned("Esc"), StyleRole::Primary));
    out.push(span(owned(" to close"), StyleRole::Muted));
    assert(spans_view(out@) =~= mcp_menu_footer_spans(primary_action, can_log_out));
    out
}

/// Renders the install flow's controls row.
pub fn render_mcp_install_footer(primary_action_hint: Option<&str>) -> (r: Vec<StyledSpan>)
    ensures
        spans_view(r@) == mcp_install_footer_spans(
            match primary_action_hint {
                Some(h) => Some(h@),
                None => None,
            },
        ),
{
    let mut out: Vec<StyledSpan> = Vec::new();
    push_enter_control(&mut out, primary_action_hint);
    out.push(span(owned("Esc"), StyleRole::Primary));
    out.push(span(owned(" to cancel"), StyleRole::Muted));
    assert(spans_view(out@) =~= mcp_install_footer_spans(
        match primary_action_hint {
            Some(h) => Some(h@),
            None => None,
        },
    ));
    out
}

} // verus!
