//! What a TUI slash command does: the decision table from the command's kind,
//! its argument and the session's state to the action the session performs,
//! and the confirmation hints of the settings the commands toggle.
use vstd::prelude::*;
use vstd::string::*;
use crate::text::owned;
use crate::footer::HintTone;
use crate::statusline::opt_view;
use crate::follow_up::{QueuedFollowUp, CompactAndOutcome, QueueOutcome, COMPACT_COMMAND, opt_str, normalized_prompt, normalize_optional_prompt, command_prompt, compact_and, queue_prompt};
use crate::hints::{NEW_CONVERSATION_COMMAND_RUNNING_HINT, CREATE_NEW_PROJECT_REQUIRES_DESCRIPTION_HINT, EXPORT_REQUIRES_CONVERSATION_HINT, COPY_DEBUGGING_ID_NO_TOKEN_HINT, EXCHANGE_MENU_REQUIRES_CONVERSATION_HINT, ORCHESTRATE_REQUIRES_CONVERSATION_HINT, ORCHESTRATE_REQUIRES_TASK_HINT, COMPACT_AND_REQUIRES_CONVERSATION_HINT, QUEUE_REQUIRES_CONVERSATION_HINT, QUEUE_REQUIRES_PROMPT_HINT, QUEUE_QUEUED_HINT, NLD_ENABLED_HINT, NLD_DISABLED_HINT, NLD_PERSISTENCE_FAILED_HINT, VIM_MODE_ENABLED_HINT, VIM_MODE_DISABLED_HINT, VIM_MODE_PERSISTENCE_FAILED_HINT, THEME_INVALID_ARGUMENT_HINT, THEME_PERSISTENCE_FAILED_HINT, STATUSLINE_SAVED_HINT, STATUSLINE_RESET_HINT, STATUSLINE_PERSISTENCE_FAILED_HINT};

verus! {

/// The slash commands the TUI knows, by what they do.
#[derive(Clone, Copy, Debug, PartialEq, Eq, Structural)]
pub enum SlashCommandKind {
    Agent,
    New,
    /// `/clear`: an alias of `/new` that also clears the transcript.
    Clear,
    Conversations,
    AutoApprove,
    Statusline,
    ResetStatusline,
    Usage,
    Cost,
    Model,
    ApiKeys,
    Profile,
    Prompts,
    InvokeSkill,
    Mcp,
    Status,
    Exit,
    Logout,
    ViewLogs,
    CreateNewProject,
    ExportToClipboard,
    CopyDebuggingId,
    ExportToFile,
    Compact,
    Plan,
    Init,
    CompactAnd,
    Fork,
    ForkAndCompact,
    ForkFrom,
    Rewind,
    Queue,
    /// `/orchestrate`, which spawns one child agent per `;`-separated task.
    Orchestrate,
    NaturalLanguageDetection,
    VimMode,
    Theme,
    /// A command only the graphical client executes.
    GuiOnly,
}

/// The menus a slash command opens.
#[derive(Clone, Copy, Debug, PartialEq, Eq, Structural)]
pub enum CommandMenu {
    Conversations,
    Model,
    ApiKeys,
    Profile,
    Prompts,
    Skills,
    Mcp,
}

/// What the exchange picker does with the chosen exchange.
#[derive(Clone, Copy, Debug, PartialEq, Eq, Structural)]
pub enum ExchangeMenuAction {
    ForkFrom,
    Rewind,
}

/// What happens on the fork once it is made.
#[derive(Debug, PartialEq, Eq)]
pub enum PostForkAction {
    /// Send the (trimmed, non-empty) prompt, if any.
    SendPrompt(Option<String>),
    /// Summarize the fork, then send the prompt, if any.
    CompactThenPrompt(Option<String>),
}

/// The action the session performs for a slash command.
#[derive(Debug, PartialEq, Eq)]
pub enum SlashCommandAction {
    /// Nothing happens.
    Ignore,
    /// A hint in the footer, and nothing else.
    ShowHint(HintTone, &'static str),
    /// Abandon the current conversation (and kill the agents it spawned),
    /// start a new one, and send the prompt, if any.
    StartNewConversation { kill_descendants_of: Option<String>, prompt: Option<String> },
    OpenMenu(CommandMenu),
    ToggleAutoApprove,
    OpenStatuslineConfig,
    ResetStatusline,
    ReportUsage,
    ReportCost,
    ShowStatusMenu,
    Exit,
    Logout,
    CreateLogBundle,
    CreateNewProject(String),
    ExportToClipboard,
    CopyDebuggingId,
    /// Export to a file, at the argument's path if one was given.
    ExportToFile(Option<String>),
    SendPrompt(String),
    Fork(PostForkAction),
    OpenExchangeMenu(ExchangeMenuAction),
    /// Spawn child agents of `parent`, one per `;`-separated task.
    SpawnChildAgents { parent: String, tasks: String },
    SetNaturalLanguageDetection(bool),
    ToggleVimMode,
    /// Set the theme named by the argument.
    SetTheme(Option<String>),
}

/// The action, and whether the composer is cleared.
#[derive(Debug, PartialEq, Eq)]
pub struct SlashCommandPlan {
    pub action: SlashCommandAction,
    pub clear_input: bool,
}

/// What the session knows when a slash command runs.
#[derive(Clone, Copy, Debug, PartialEq, Eq)]
pub struct SlashCommandContext {
    /// Whether the command runs in the TUI at all.
    pub supports_tui: bool,
    /// False while a command is running in the terminal.
    pub can_start_new_conversation: bool,
    pub list_skills_enabled: bool,
    pub natural_language_detection_enabled: bool,
    /// Whether the selected conversation has a server token to copy.
    pub has_debugging_token: bool,
    /// Whether the selected conversation's turn is running or blocked.
    pub turn_is_running: bool,
    /// Whether no blocker or open picker holds the input slot.
    pub statusline_slot_free: bool,
}

/// The trimmed argument, when something is left of it.
pub open spec fn trimmed_argument(argument: Option<&str>) -> Option<Seq<char>> {
    normalized_prompt(opt_str(argument))
}

/// The query a summarize, plan or init command is sent as.
pub open spec fn command_query(command_name: Seq<char>, argument: Option<Seq<char>>) -> Seq<char> {
    match argument {
        Some(a) => if a.len() == 0 {
            command_name
        } else {
            command_name + " "@ + a
        },
        None => command_name,
    }
}

/// A plan without strings: the action and whether the composer clears.
pub open spec fn plan_is(r: SlashCommandPlan, action: SlashCommandAction, clear_input: bool) -> bool {
    r.action == action && r.clear_input == clear_input
}

pub open spec fn plan_is_pair(r: SlashCommandPlan, p: (SlashCommandAction, bool)) -> bool {
    r.action == p.0 && r.clear_input == p.1
}

/// The plan of the commands that neither read the argument nor the
/// selected conversation.
pub open spec fn fixed_plan(kind: SlashCommandKind, ctx: SlashCommandContext) -> Option<(SlashCommandAction, bool)> {
    match kind {
        SlashCommandKind::Conversations => Some((SlashCommandAction::OpenMenu(CommandMenu::Conversations), false)),
        SlashCommandKind::AutoApprove => Some((SlashCommandAction::ToggleAutoApprove, true)),
        SlashCommandKind::Statusline => if ctx.statusline_slot_free {
            Some((SlashCommandAction::OpenStatuslineConfig, true))
        } else {
            Some((SlashCommandAction::Ignore, false))
        },
        SlashCommandKind::ResetStatusline => Some((SlashCommandAction::ResetStatusline, true)),
        SlashCommandKind::Usage => Some((SlashCommandAction::ReportUsage, true)),
        SlashCommandKind::Cost => Some((SlashCommandAction::ReportCost, true)),
        SlashCommandKind::Model => Some((SlashCommandAction::OpenMenu(CommandMenu::Model), false)),
        SlashCommandKind::ApiKeys => Some((SlashCommandAction::OpenMenu(CommandMenu::ApiKeys), false)),
        SlashCommandKind::Profile => Some((SlashCommandAction::OpenMenu(CommandMenu::Profile), false)),
        SlashCommandKind::Prompts => Some((SlashCommandAction::OpenMenu(CommandMenu::Prompts), false)),
        SlashCommandKind::InvokeSkill => if ctx.list_skills_enabled {
            Some((SlashCommandAction::OpenMenu(CommandMenu::Skills), false))
        } else {
            Some((SlashCommandAction::Ignore, false))
        },
        SlashCommandKind::Mcp => Some((SlashCommandAction::OpenMenu(CommandMenu::Mcp), false)),
        SlashCommandKind::Status => Some((SlashCommandAction::ShowStatusMenu, true)),
        SlashCommandKind::Exit => Some((SlashCommandAction::Exit, false)),
        SlashCommandKind::Logout => Some((SlashCommandAction::Logout, false)),
        SlashCommandKind::ViewLogs => Some((SlashCommandAction::CreateLogBundle, true)),
        SlashCommandKind::CopyDebuggingId => if ctx.has_debugging_token {
            Some((SlashCommandAction::CopyDebuggingId, true))
        } else {
            Some((SlashCommandAction::ShowHint(HintTone::Error, COPY_DEBUGGING_ID_NO_TOKEN_HINT), true))
        },
        SlashCommandKind::NaturalLanguageDetection => Some(
            (SlashCommandAction::SetNaturalLanguageDetection(!ctx.natural_language_detection_enabled), true),
        ),
        SlashCommandKind::VimMode => Some((SlashCommandAction::ToggleVimMode, true)),
        SlashCommandKind::GuiOnly => Some((SlashCommandAction::Ignore, false)),
        _ => None,
    }
}

/// Decides what a slash command does. Only `/compact-and` and `/queue` touch
/// the held follow-up prompt; every other command leaves it as it was.
#[verifier::rlimit(40)]
pub fn plan_slash_command(
    queued: &mut Option<QueuedFollowUp>,
    kind: SlashCommandKind,
    command_name: &str,
    argument: Option<&str>,
    selected_conversation: Option<&str>,
    ctx: SlashCommandContext,
) -> (r: SlashCommandPlan)
    ensures
        !ctx.supports_tui ==> plan_is(r, SlashCommandAction::Ignore, false) && *final(queued)
            == *old(queued),
        ctx.supports_tui && fixed_plan(kind, ctx) is Some ==> plan_is_pair(r, fixed_plan(kind, ctx)->0)
            && *final(queued) == *old(queued),
        ctx.supports_tui && kind == SlashCommandKind::NaturalLanguageDetection ==> r.clear_input && (
        r.action matches SlashCommandAction::SetNaturalLanguageDetection(enabled) && enabled
            != ctx.natural_language_detection_enabled),
        ctx.supports_tui && (kind == SlashCommandKind::Agent || kind == SlashCommandKind::New || kind
            == SlashCommandKind::Clear) ==> *final(queued) == *old(queued) && if !ctx.can_start_new_conversation {
            plan_is(r, SlashCommandAction::ShowHint(HintTone::Muted, NEW_CONVERSATION_COMMAND_RUNNING_HINT), false)
        } else {
            &&& r.clear_input
            &&& r.action matches SlashCommandAction::StartNewConversation { kill_descendants_of, prompt }
            &&& opt_view(kill_descendants_of) == opt_str(selected_conversation)
            &&& opt_view(prompt) == trimmed_argument(argument)
        },
        ctx.supports_tui && kind == SlashCommandKind::CreateNewProject ==> *final(queued) == *old(queued)
            && match trimmed_argument(argument) {
            None => plan_is(r, SlashCommandAction::ShowHint(HintTone::Muted, CREATE_NEW_PROJECT_REQUIRES_DESCRIPTION_HINT), false),
            Some(q) => r.clear_input && (r.action matches SlashCommandAction::CreateNewProject(s) && s@ == q),
        },
        ctx.supports_tui && kind == SlashCommandKind::ExportToClipboard ==> *final(queued) == *old(queued)
            && if selected_conversation is None {
            plan_is(r, SlashCommandAction::ShowHint(HintTone::Muted, EXPORT_REQUIRES_CONVERSATION_HINT), true)
        } else {
            plan_is(r, SlashCommandAction::ExportToClipboard, true)
        },
        ctx.supports_tui && kind == SlashCommandKind::ExportToFile ==> *final(queued) == *old(queued)
            && if selected_conversation is None {
            plan_is(r, SlashCommandAction::ShowHint(HintTone::Muted, EXPORT_REQUIRES_CONVERSATION_HINT), false)
        } else {
            r.clear_input && (r.action matches SlashCommandAction::ExportToFile(path) && opt_view(path)
                == opt_str(argument))
        },
        ctx.supports_tui && (kind == SlashCommandKind::Compact || kind == SlashCommandKind::Plan || kind
            == SlashCommandKind::Init) ==> *final(queued) == *old(queued) && r.clear_input
            && (r.action matches SlashCommandAction::SendPrompt(p) && p@ == command_query(
            command_name@,
            opt_str(argument),
        )),
        ctx.supports_tui && kind == SlashCommandKind::CompactAnd ==> r.clear_input && if selected_conversation is None {
            r.action == SlashCommandAction::ShowHint(HintTone::Muted, COMPACT_AND_REQUIRES_CONVERSATION_HINT)
                && *final(queued) == *old(queued)
        } else {
            &&& r.action matches SlashCommandAction::SendPrompt(p) && p@ == COMPACT_COMMAND@
            &&& match trimmed_argument(argument) {
                Some(p) => *final(queued) matches Some(f) && f.conversation_id@
                    == selected_conversation->0@ && f.prompt@ == p && !f.seen_in_progress,
                None => *final(queued) is None,
            }
        },
        ctx.supports_tui && (kind == SlashCommandKind::Fork || kind == SlashCommandKind::ForkAndCompact)
            ==> *final(queued) == *old(queued) && r.clear_input && match r.action {
            SlashCommandAction::Fork(PostForkAction::SendPrompt(p)) => kind == SlashCommandKind::Fork
                && opt_view(p) == opt_str(argument),
            SlashCommandAction::Fork(PostForkAction::CompactThenPrompt(p)) => kind
                == SlashCommandKind::ForkAndCompact && opt_view(p) == opt_str(argument),
            _ => false,
        },
        ctx.supports_tui && (kind == SlashCommandKind::ForkFrom || kind == SlashCommandKind::Rewind)
            ==> *final(queued) == *old(queued) && if selected_conversation is None {
            plan_is(r, SlashCommandAction::ShowHint(HintTone::Muted, EXCHANGE_MENU_REQUIRES_CONVERSATION_HINT), true)
        } else {
            plan_is(
                r,
                SlashCommandAction::OpenExchangeMenu(
                    if kind == SlashCommandKind::ForkFrom {
                        ExchangeMenuAction::ForkFrom
                    } else {
                        ExchangeMenuAction::Rewind
                    },
                ),
                true,
            )
        },
        ctx.supports_tui && kind == SlashCommandKind::Queue ==> r.clear_input && if selected_conversation is None {
            r.action == SlashCommandAction::ShowHint(HintTone::Muted, QUEUE_REQUIRES_CONVERSATION_HINT)
                && *final(queued) == *old(queued)
        } else if trimmed_argument(argument) is None {
            r.action == SlashCommandAction::ShowHint(HintTone::Muted, QUEUE_REQUIRES_PROMPT_HINT)
                && *final(queued) == *old(queued)
        } else if ctx.turn_is_running {
            &&& r.action == SlashCommandAction::ShowHint(HintTone::Success, QUEUE_QUEUED_HINT)
            &&& (*final(queued) matches Some(f) && f.conversation_id@ == selected_conversation->0@
                && f.prompt@ == trimmed_argument(argument)->0 && f.seen_in_progress)
        } else {
            &&& (r.action matches SlashCommandAction::SendPrompt(p) && p@ == trimmed_argument(argument)->0)
            &&& *final(queued) == *old(queued)
        },
        ctx.supports_tui && kind == SlashCommandKind::Orchestrate ==> *final(queued) == *old(queued)
            && if selected_conversation is None {
            plan_is(r, SlashCommandAction::ShowHint(HintTone::Muted, ORCHESTRATE_REQUIRES_CONVERSATION_HINT), false)
        } else if trimmed_argument(argument) is None {
            plan_is(r, SlashCommandAction::ShowHint(HintTone::Muted, ORCHESTRATE_REQUIRES_TASK_HINT), false)
        } else {
            r.clear_input && (r.action matches SlashCommandAction::SpawnChildAgents { parent, tasks }
                && parent@ == selected_conversation->0@ && tasks@ == trimmed_argument(argument)->0)
        },
        ctx.supports_tui && kind == SlashCommandKind::Theme ==> *final(queued) == *old(queued)
            && r.clear_input && (r.action matches SlashCommandAction::SetTheme(t) && opt_view(t)
            == opt_str(argument)),
{
    if !ctx.supports_tui {
        return SlashCommandPlan { action: SlashCommandAction::Ignore, clear_input: false };
    }
    let (action, clear_input) = match kind {
        SlashCommandKind::Agent | SlashCommandKind::New | SlashCommandKind::Clear => {
            if !ctx.can_start_new_conversation {
                (SlashCommandAction::ShowHint(HintTone::Muted, NEW_CONVERSATION_COMMAND_RUNNING_HINT), false)
            } else {
                let kill = match selected_conversation {
                    Some(id) => Some(owned(id)),
                    None => None,
                };
                (
                    SlashCommandAction::StartNewConversation {
                        kill_descendants_of: kill,
                        prompt: normalize_optional_prompt(argument),
                    },
                    true,
                )
            }
        },
        SlashCommandKind::Conversations => (SlashCommandAction::OpenMenu(CommandMenu::Conversations), false),
        SlashCommandKind::AutoApprove => (SlashCommandAction::ToggleAutoApprove, true),
        SlashCommandKind::Statusline => {
            if ctx.statusline_slot_free {
                (SlashCommandAction::OpenStatuslineConfig, true)
            } else {
                (SlashCommandAction::Ignore, false)
            }
        },
        SlashCommandKind::ResetStatusline => (SlashCommandAction::ResetStatusline, true),
        SlashCommandKind::Usage => (SlashCommandAction::ReportUsage, true),
        SlashCommandKind::Cost => (SlashCommandAction::ReportCost, true),
        SlashCommandKind::Model => (SlashCommandAction::OpenMenu(CommandMenu::Model), false),
        SlashCommandKind::ApiKeys => (SlashCommandAction::OpenMenu(CommandMenu::ApiKeys), false),
        SlashCommandKind::Profile => (SlashCommandAction::OpenMenu(CommandMenu::Profile), false),
        SlashCommandKind::Prompts => (SlashCommandAction::OpenMenu(CommandMenu::Prompts), false),
        SlashCommandKind::InvokeSkill => {
            if ctx.list_skills_enabled {
                (SlashCommandAction::OpenMenu(CommandMenu::Skills), false)
            } else {
                (SlashCommandAction::Ignore, false)
            }
        },
        SlashCommandKind::Mcp => (SlashCommandAction::OpenMenu(CommandMenu::Mcp), false),
        SlashCommandKind::Status => (SlashCommandAction::ShowStatusMenu, true),
        SlashCommandKind::Exit => (SlashCommandAction::Exit, false),
        SlashCommandKind::Logout => (SlashCommandAction::Logout, false),
        SlashCommandKind::ViewLogs => (SlashCommandAction::CreateLogBundle, true),
        SlashCommandKind::CreateNewProject => match normalize_optional_prompt(argument) {
            Some(query) => (SlashCommandAction::CreateNewProject(query), true),
            None => (
                SlashCommandAction::ShowHint(HintTone::Muted, CREATE_NEW_PROJECT_REQUIRES_DESCRIPTION_HINT),
                false,
            ),
        },
        SlashCommandKind::ExportToClipboard => {
            if selected_conversation.is_some() {
                (SlashCommandAction::ExportToClipboard, true)
            } else {
                (SlashCommandAction::ShowHint(HintTone::Muted, EXPORT_REQUIRES_CONVERSATION_HINT), true)
            }
        },
        SlashCommandKind::CopyDebuggingId => {
            if ctx.has_debugging_token {
                (SlashCommandAction::CopyDebuggingId, true)
            } else {
                (SlashCommandAction::ShowHint(HintTone::Error, COPY_DEBUGGING_ID_NO_TOKEN_HINT), true)
            }
        },
        SlashCommandKind::ExportToFile => {
            if selected_conversation.is_some() {
                let path = match argument {
                    Some(a) => Some(owned(a)),
                    None => None,
                };
                (SlashCommandAction::ExportToFile(path), true)
            } else {
                (SlashCommandAction::ShowHint(HintTone::Muted, EXPORT_REQUIRES_CONVERSATION_HINT), false)
            }
        },
        SlashCommandKind::Compact | SlashCommandKind::Plan | SlashCommandKind::Init => {
            (SlashCommandAction::SendPrompt(command_prompt(command_name, argument)), true)
        },
        SlashCommandKind::CompactAnd => match compact_and(queued, selected_conversation, argument) {
            CompactAndOutcome::RequiresConversation(h) => (SlashCommandAction::ShowHint(HintTone::Muted, h), true),
            CompactAndOutcome::SendCompact(c) => (SlashCommandAction::SendPrompt(owned(c)), true),
        },
        SlashCommandKind::Fork | SlashCommandKind::ForkAndCompact => {
            let prompt = match argument {
                Some(a) => Some(owned(a)),
                None => None,
            };
            let post = if kind == SlashCommandKind::Fork {
                PostForkAction::SendPrompt(prompt)
            } else {
                PostForkAction::CompactThenPrompt(prompt)
            };
            (SlashCommandAction::Fork(post), true)
        },
        SlashCommandKind::ForkFrom | SlashCommandKind::Rewind => {
            if selected_conversation.is_none() {
                (SlashCommandAction::ShowHint(HintTone::Muted, EXCHANGE_MENU_REQUIRES_CONVERSATION_HINT), true)
            } else if kind == SlashCommandKind::ForkFrom {
                (SlashCommandAction::OpenExchangeMenu(ExchangeMenuAction::ForkFrom), true)
            } else {
                (SlashCommandAction::OpenExchangeMenu(ExchangeMenuAction::Rewind), true)
            }
        },
        SlashCommandKind::Queue => match queue_prompt(queued, selected_conversation, argument, ctx.turn_is_running) {
            QueueOutcome::RequiresConversation(h) => (SlashCommandAction::ShowHint(HintTone::Muted, h), true),
            QueueOutcome::RequiresPrompt(h) => (SlashCommandAction::ShowHint(HintTone::Muted, h), true),
            QueueOutcome::Queued => (SlashCommandAction::ShowHint(HintTone::Success, QUEUE_QUEUED_HINT), true),
            QueueOutcome::SendNow(p) => (SlashCommandAction::SendPrompt(p), true),
        },
        SlashCommandKind::Orchestrate => match selected_conversation {
            None => (SlashCommandAction::ShowHint(HintTone::Muted, ORCHESTRATE_REQUIRES_CONVERSATION_HINT), false),
            Some(parent) => match normalize_optional_prompt(argument) {
                None => (SlashCommandAction::ShowHint(HintTone::Muted, ORCHESTRATE_REQUIRES_TASK_HINT), false),
                Some(tasks) => (SlashCommandAction::SpawnChildAgents { parent: owned(parent), tasks }, true),
            },
        },
        SlashCommandKind::NaturalLanguageDetection => (
            SlashCommandAction::SetNaturalLanguageDetection(!ctx.natural_language_detection_enabled),
            true,
        ),
        SlashCommandKind::VimMode => (SlashCommandAction::ToggleVimMode, true),
        SlashCommandKind::Theme => {
            let theme = match argument {
                Some(a) => Some(owned(a)),
                None => None,
            };
            (SlashCommandAction::SetTheme(theme), true)
        },
        SlashCommandKind::GuiOnly => (SlashCommandAction::Ignore, false),
    };
    SlashCommandPlan { action, clear_input }
}

/// After a fork is made: the prompt to send to it now. With
/// `CompactThenPrompt` that is the summarize command, and the trimmed prompt
/// (when non-empty) is held for after the summarize turn.
pub fn after_fork(queued: &mut Option<QueuedFollowUp>, forked_id: &str, post: PostForkAction) -> (r: Option<String>)
    ensures
        match post {
            PostForkAction::SendPrompt(p) => *final(queued) == *old(queued) && opt_view(r)
                == normalized_prompt(opt_view(p)),
            PostForkAction::CompactThenPrompt(p) => {
                &&& opt_view(r) == Some(COMPACT_COMMAND@)
                &&& match normalized_prompt(opt_view(p)) {
                    Some(q) => *final(queued) matches Some(f) && f.conversation_id@ == forked_id@
                        && f.prompt@ == q && !f.seen_in_progress,
                    None => *final(queued) is None,
                }
            },
        },
{
    match post {
        PostForkAction::SendPrompt(p) => {
            let arg: Option<&str> = match &p {
                Some(s) => Some(s.as_str()),
                None => None,
            };
            normalize_optional_prompt(arg)
        },
        PostForkAction::CompactThenPrompt(p) => {
            let arg: Option<&str> = match &p {
                Some(s) => Some(s.as_str()),
                None => None,
            };
            *queued = match normalize_optional_prompt(arg) {
                Some(prompt) => Some(
                    QueuedFollowUp { conversation_id: owned(forked_id), prompt, seen_in_progress: false },
                ),
                None => None,
            };
            Some(owned(COMPACT_COMMAND))
        },
    }
}

/// The hint after toggling natural-language detection to `enabled`.
pub fn natural_language_detection_hint(enabled: bool, saved: bool) -> (r: (HintTone, &'static str))
    ensures
        r == if !saved {
            (HintTone::Muted, NLD_PERSISTENCE_FAILED_HINT)
        } else if enabled {
            (HintTone::Success, NLD_ENABLED_HINT)
        } else {
            (HintTone::Success, NLD_DISABLED_HINT)
        },
{
    if !saved {
        (HintTone::Muted, NLD_PERSISTENCE_FAILED_HINT)
    } else if enabled {
        (HintTone::Success, NLD_ENABLED_HINT)
    } else {
        (HintTone::Success, NLD_DISABLED_HINT)
    }
}

/// The hint after toggling vim mode to `enabled`; without editor settings
/// nothing can be saved.
pub fn vim_mode_hint(settings_available: bool, enabled: bool, saved: bool) -> (r: (HintTone, &'static str))
    ensures
        r == if !settings_available || !saved {
            (HintTone::Muted, VIM_MODE_PERSISTENCE_FAILED_HINT)
        } else if enabled {
            (HintTone::Success, VIM_MODE_ENABLED_HINT)
        } else {
            (HintTone::Success, VIM_MODE_DISABLED_HINT)
        },
{
    if !settings_available || !saved {
        (HintTone::Muted, VIM_MODE_PERSISTENCE_FAILED_HINT)
    } else if enabled {
        (HintTone::Success, VIM_MODE_ENABLED_HINT)
    } else {
        (HintTone::Success, VIM_MODE_DISABLED_HINT)
    }
}

/// Which statusline configuration is being saved.
#[derive(Clone, Copy, Debug, PartialEq, Eq, Structural)]
pub enum StatuslineSave {
    /// The picker's choice was saved.
    Configured,
    /// `/reset-statusline` restored the default items and order.
    Reset,
}

/// The hint after a statusline configuration was written (the picker, if
/// open, closes either way): success names what was saved; a failed write
/// shows the persistence hint.
pub fn statusline_save_hint(save: StatuslineSave, saved: bool) -> (r: (HintTone, &'static str))
    ensures
        r == if !saved {
            (HintTone::Muted, STATUSLINE_PERSISTENCE_FAILED_HINT)
        } else if save == StatuslineSave::Configured {
            (HintTone::Success, STATUSLINE_SAVED_HINT)
        } else {
            (HintTone::Success, STATUSLINE_RESET_HINT)
        },
{
    if !saved {
        (HintTone::Muted, STATUSLINE_PERSISTENCE_FAILED_HINT)
    } else {
        match save {
            StatuslineSave::Configured => (HintTone::Success, STATUSLINE_SAVED_HINT),
            StatuslineSave::Reset => (HintTone::Success, STATUSLINE_RESET_HINT),
        }
    }
}

/// How `/theme` went.
#[derive(Debug, PartialEq, Eq)]
pub enum ThemeOutcome {
    /// The argument names no theme.
    InvalidArgument,
    SaveFailed,
    /// Auto mode, resolved to the named theme for the terminal's background.
    SetAuto { currently: String },
    /// The named light or dark theme.
    SetExplicit { name: String },
}

/// The hint `/theme` shows.
pub fn theme_hint(outcome: &ThemeOutcome) -> (r: (HintTone, String))
    ensures
        match outcome {
            ThemeOutcome::InvalidArgument => r.0 == HintTone::Muted && r.1@ == THEME_INVALID_ARGUMENT_HINT@,
            ThemeOutcome::SaveFailed => r.0 == HintTone::Muted && r.1@ == THEME_PERSISTENCE_FAILED_HINT@,
            ThemeOutcome::SetAuto { currently } => r.0 == HintTone::Success && r.1@
                == "Theme set to auto mode (currently "@ + currently@ + ")."@,
            ThemeOutcome::SetExplicit { name } => r.0 == HintTone::Success && r.1@ == "Theme set to "@
                + name@ + " mode."@,
        },
{
    match outcome {
        ThemeOutcome::InvalidArgument => (HintTone::Muted, owned(THEME_INVALID_ARGUMENT_HINT)),
        ThemeOutcome::SaveFailed => (HintTone::Muted, owned(THEME_PERSISTENCE_FAILED_HINT)),
        ThemeOutcome::SetAuto { currently } => {
            let mut s = owned("Theme set to auto mode (currently ");
            s.append(currently.as_str());
            s.append(").");
            (HintTone::Success, s)
        },
        ThemeOutcome::SetExplicit { name } => {
            let mut s = owned("Theme set to ");
            s.append(name.as_str());
            s.append(" mode.");
            (HintTone::Success, s)
        },
    }
}

} // verus!
