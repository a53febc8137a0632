//! Interaction state of the session surface: keymap context flags, the focus
//! owner, what the surface lays out, the TODO menu, hidden response
//! summaries, and the guards on switching or forking conversations.
use vstd::prelude::*;
use vstd::string::*;
use crate::text::{StyleRole, StyledSpan, SpanView, spans_view, plain, owned};
use crate::session_io::InputTarget;
use crate::footer::HintTone;
use crate::statusline::opt_view;
use crate::restore::RestoreTarget;
use crate::hints::{cost_unavailable, cost_command_unavailable_hint, COST_NO_ACTIVE_CONVERSATION_HINT, AUTO_APPROVE_DISABLED_HINT, AUTO_APPROVE_ENABLED_HINT, FORK_EMPTY_CONVERSATION_HINT, FORK_REQUIRES_CONVERSATION_HINT, SWITCH_COMMAND_RUNNING_HINT, SWITCH_CONVERSATION_RUNNING_HINT, SWITCH_LOADING_HINT, SWITCH_UNAVAILABLE_HINT};

verus! {

pub const SESSION_CAN_CANCEL_RESTORE_FLAG: &'static str = "TuiSessionCanCancelRestore";
pub const SESSION_CAN_HAND_BACK_CONTROL_FLAG: &'static str = "TuiSessionCanHandBackControl";
pub const SESSION_CAN_ALLOW_BLOCKED_LRC_ACTION_FLAG: &'static str =
    "TuiSessionCanAllowBlockedLrcAction";
pub const SESSION_CAN_REJECT_BLOCKED_LRC_ACTION_FLAG: &'static str =
    "TuiSessionCanRejectBlockedLrcAction";
pub const SESSION_CAN_ATTACH_AGENT_TO_RUNNING_COMMAND_FLAG: &'static str =
    "TuiSessionCanAttachAgentToRunningCommand";
pub const SESSION_CAN_DETACH_AGENT_FROM_RUNNING_COMMAND_FLAG: &'static str =
    "TuiSessionCanDetachAgentFromRunningCommand";
pub const SESSION_COMPOSER_SHORTCUTS_ACTIVE_FLAG: &'static str =
    "TuiSessionComposerShortcutsActive";
pub const TRIGGER_COMPLETIONS_BINDING_NAME: &'static str = "tui:session:trigger_completions";
pub const PASTE_IMAGE_BINDING_NAME: &'static str = "tui:session:paste_image";
pub const AUTO_APPROVE_TOGGLE_BINDING_NAME: &'static str = "tui:session:toggle_auto_approve";
pub const ATTACH_AGENT_TO_RUNNING_COMMAND_BINDING_NAME: &'static str =
    "tui:session:attach_agent_to_running_command";
pub const DETACH_AGENT_FROM_RUNNING_COMMAND_BINDING_NAME: &'static str =
    "tui:session:detach_agent_from_running_command";

/// A keymap context flag the session sets.
#[derive(Clone, Copy, Debug, PartialEq, Eq, Structural)]
pub enum SessionFlag {
    CanCancelRestore,
    CanHandBackControl,
    CanAttachAgentToRunningCommand,
    CanDetachAgentFromRunningCommand,
    CanAllowBlockedLrcAction,
    CanRejectBlockedLrcAction,
    PlanToggleAvailable,
    KeyboardEnhancementAvailable,
    ComposerShortcutsActive,
    /// Tab focuses image attachments (rather than triggering completions).
    AttachmentsAvailable,
    OrchestrationTabBarFocused,
}

/// What the keymap context is derived from.
#[derive(Clone, Copy, Debug, PartialEq, Eq)]
pub struct KeymapInputs {
    pub restore_loading: bool,
    pub user_controls_running_command: bool,
    pub can_attach_agent_to_running_command: bool,
    pub agent_tagged_in: bool,
    pub input_target: InputTarget,
    pub suggestions_visible: bool,
    pub agent_blocked_on_running_command: bool,
    pub has_toggleable_plan: bool,
    pub keyboard_enhancement_supported: bool,
    pub shell_mode: bool,
    pub attachments_should_render: bool,
    pub tabs_focused: bool,
}

/// Whether Tab focuses the attachment bar instead of completing: shell mode
/// reserves Tab for completion even when attachments would render.
pub open spec fn attachments_focusable(is_shell_mode: bool, attachments_should_render: bool) -> bool {
    !is_shell_mode && attachments_should_render
}

pub fn attachment_focus_available(is_shell_mode: bool, attachments_should_render: bool) -> (r: bool)
    ensures
        r == attachments_focusable(is_shell_mode, attachments_should_render),
{
    !is_shell_mode && attachments_should_render
}

/// Whether the session sets `flag` for these inputs.
pub open spec fn flag_set(k: KeymapInputs, flag: SessionFlag) -> bool {
    let composer_idle = k.input_target == InputTarget::AgentEditor && !k.suggestions_visible;
    match flag {
        SessionFlag::CanCancelRestore => k.restore_loading,
        SessionFlag::CanHandBackControl => k.user_controls_running_command,
        SessionFlag::CanAttachAgentToRunningCommand => k.can_attach_agent_to_running_command,
        SessionFlag::CanDetachAgentFromRunningCommand => k.agent_tagged_in && composer_idle,
        SessionFlag::CanAllowBlockedLrcAction => k.agent_blocked_on_running_command,
        SessionFlag::CanRejectBlockedLrcAction => k.agent_blocked_on_running_command,
        SessionFlag::PlanToggleAvailable => k.has_toggleable_plan,
        SessionFlag::KeyboardEnhancementAvailable => k.keyboard_enhancement_supported,
        SessionFlag::ComposerShortcutsActive => composer_idle,
        SessionFlag::AttachmentsAvailable => composer_idle && attachments_focusable(
            k.shell_mode,
            k.attachments_should_render,
        ),
        SessionFlag::OrchestrationTabBarFocused => k.tabs_focused,
    }
}

/// The session's keymap context flags.
pub fn keymap_flags(k: KeymapInputs) -> (r: Vec<SessionFlag>)
    ensures
        forall|flag: SessionFlag| r@.contains(flag) <==> flag_set(k, flag),
{
    broadcast use {vstd::seq_lib::lemma_seq_contains_after_push, vstd::seq_lib::lemma_seq_empty_contains_nothing};

    let mut flags: Vec<SessionFlag> = Vec::new();
    let composer_idle = k.input_target == InputTarget::AgentEditor && !k.suggestions_visible;
    if k.restore_loading {
        flags.push(SessionFlag::CanCancelRestore);
    }
    if k.user_controls_running_command {
        flags.push(SessionFlag::CanHandBackControl);
    }
    if k.can_attach_agent_to_running_command {
        flags.push(SessionFlag::CanAttachAgentToRunningCommand);
    }
    if k.agent_tagged_in && composer_idle {
        flags.push(SessionFlag::CanDetachAgentFromRunningCommand);
    }
    if k.agent_blocked_on_running_command {
        flags.push(SessionFlag::CanAllowBlockedLrcAction);
        flags.push(SessionFlag::CanRejectBlockedLrcAction);
    }
    if k.has_toggleable_plan {
        flags.push(SessionFlag::PlanToggleAvailable);
    }
    if k.keyboard_enhancement_supported {
        flags.push(SessionFlag::KeyboardEnhancementAvailable);
    }
    if composer_idle {
        flags.push(SessionFlag::ComposerShortcutsActive);
        if attachment_focus_available(k.shell_mode, k.attachments_should_render) {
            flags.push(SessionFlag::AttachmentsAvailable);
        }
    }
    if k.tabs_focused {
        flags.push(SessionFlag::OrchestrationTabBarFocused);
    }
    flags
}

/// Who receives keyboard focus.
#[derive(Clone, Copy, Debug, PartialEq, Eq, Structural)]
pub enum FocusOwner {
    /// The front-of-queue blocking interaction.
    Blocker,
    /// The `/statusline` picker.
    StatuslineConfig,
    /// The session view itself (the tab bar, or a foreground process).
    Session,
    /// The composer.
    Input,
}

/// Resolves the focus owner for the input target: a process owning the PTY
/// takes focus on the session (and tab focus ends); otherwise an active
/// blocker, then an open statusline picker (both ending tab focus), then the
/// tab bar when it has focus, else the composer.
pub fn focus_current_owner(
    input_target: InputTarget,
    blocker_active: bool,
    statusline_config_open: bool,
    tabs_focused: &mut bool,
) -> (r: FocusOwner)
    ensures
        input_target == InputTarget::Pty ==> r == FocusOwner::Session && !*final(tabs_focused),
        input_target != InputTarget::Pty ==> if blocker_active {
            r == FocusOwner::Blocker && !*final(tabs_focused)
        } else if statusline_config_open {
            r == FocusOwner::StatuslineConfig && !*final(tabs_focused)
        } else if *old(tabs_focused) {
            r == FocusOwner::Session && *final(tabs_focused)
        } else {
            r == FocusOwner::Input && !*final(tabs_focused)
        },
{
    match input_target {
        InputTarget::Disabled | InputTarget::AgentEditor => {
            if blocker_active {
                *tabs_focused = false;
                FocusOwner::Blocker
            } else if statusline_config_open {
                *tabs_focused = false;
                FocusOwner::StatuslineConfig
            } else if *tabs_focused {
                FocusOwner::Session
            } else {
                FocusOwner::Input
            }
        },
        InputTarget::Pty => {
            *tabs_focused = false;
            FocusOwner::Session
        },
    }
}

/// A wakeup redraws only the focused session, and moves focus off a hidden
/// composer when a command just became the input owner.
pub fn wakeup_refocuses(is_focused_session: bool, pty_owns_input: bool, input_focused: bool) -> (r:
    bool)
    ensures
        r == (is_focused_session && pty_owns_input && input_focused),
{
    is_focused_session && pty_owns_input && input_focused
}

/// What the session surface lays out, besides the transcript.
#[derive(Clone, Copy, Debug, PartialEq, Eq)]
pub struct LayoutInputs {
    pub alt_screen_active: bool,
    pub input_target: InputTarget,
    pub user_owns_running_command: bool,
    pub running_command_hint_available: bool,
    pub transcript_empty: bool,
    pub blocker_active: bool,
    pub statusline_config_open: bool,
    /// The selected conversation exists and is in progress with a started exchange.
    pub warping: bool,
    /// The selected conversation exists, is not in progress, and has a
    /// visible summary of its last response.
    pub response_summary: bool,
    pub inline_menu_open: bool,
    pub read_only_menu_open: bool,
}

/// The surface's layout, top to bottom.
#[derive(Clone, Copy, Debug, PartialEq, Eq)]
pub struct LayoutPlan {
    /// A full-screen app owns the output region.
    pub alt_screen: bool,
    /// Keystrokes are forwarded to the PTY.
    pub pty_input: bool,
    /// The zero state fills the transcript's slot.
    pub zero_state: bool,
    pub starting_shell_hint: bool,
    pub warping_indicator: bool,
    pub response_summary: bool,
    pub running_command_hint: bool,
    pub statusline_config: bool,
    pub inline_menu: bool,
    pub read_only_menu: bool,
    /// Attachment bar, input box and footer.
    pub composer: bool,
}

pub open spec fn layout(k: LayoutInputs) -> LayoutPlan {
    let agent = k.input_target == InputTarget::AgentEditor;
    let pty = k.input_target == InputTarget::Pty;
    if k.alt_screen_active {
        LayoutPlan {
            alt_screen: true,
            pty_input: pty,
            zero_state: false,
            starting_shell_hint: false,
            warping_indicator: false,
            response_summary: false,
            running_command_hint: pty && k.user_owns_running_command
                && k.running_command_hint_available,
            statusline_config: false,
            inline_menu: false,
            read_only_menu: false,
            composer: agent,
        }
    } else {
        let shows_selected = !k.blocker_active && !k.statusline_config_open && agent;
        let composer_area = !k.blocker_active && !k.statusline_config_open && (agent
            || k.input_target == InputTarget::Disabled);
        LayoutPlan {
            alt_screen: false,
            pty_input: pty,
            zero_state: k.transcript_empty,
            starting_shell_hint: !k.blocker_active && k.input_target == InputTarget::Disabled,
            warping_indicator: shows_selected && k.warping,
            response_summary: shows_selected && !k.warping && k.response_summary,
            running_command_hint: !k.blocker_active && k.user_owns_running_command
                && k.running_command_hint_available,
            statusline_config: !k.blocker_active && k.statusline_config_open,
            inline_menu: composer_area && agent && k.inline_menu_open,
            read_only_menu: composer_area && k.read_only_menu_open,
            composer: composer_area,
        }
    }
}

/// Decides the surface's layout: a full-screen app takes the output region
/// (with the composer beneath it only while the agent drives it); otherwise
/// the transcript or zero state, then the startup, warping, running-command
/// and picker rows, then the menus and the composer, all hidden while a
/// blocker renders its own controls.
pub fn layout_plan(k: LayoutInputs) -> (r: LayoutPlan)
    ensures
        r == layout(k),
        !k.alt_screen_active && !k.blocker_active && !k.statusline_config_open && (k.input_target
            == InputTarget::AgentEditor || k.input_target == InputTarget::Disabled) ==> r.composer
            && r.read_only_menu == k.read_only_menu_open,
{
    let agent = k.input_target == InputTarget::AgentEditor;
    let pty = k.input_target == InputTarget::Pty;
    if k.alt_screen_active {
        return LayoutPlan {
            alt_screen: true,
            pty_input: pty,
            zero_state: false,
            starting_shell_hint: false,
            warping_indicator: false,
            response_summary: false,
            running_command_hint: pty && k.user_owns_running_command
                && k.running_command_hint_available,
            statusline_config: false,
            inline_menu: false,
            read_only_menu: false,
            composer: agent,
        };
    }
    let shows_selected = !k.blocker_active && !k.statusline_config_open && agent;
    let composer_area = !k.blocker_active && !k.statusline_config_open && (agent
        || k.input_target == InputTarget::Disabled);
    LayoutPlan {
        alt_screen: false,
        pty_input: pty,
        zero_state: k.transcript_empty,
        starting_shell_hint: !k.blocker_active && k.input_target == InputTarget::Disabled,
        warping_indicator: shows_selected && k.warping,
        response_summary: shows_selected && !k.warping && k.response_summary,
        running_command_hint: !k.blocker_active && k.user_owns_running_command
            && k.running_command_hint_available,
        statusline_config: !k.blocker_active && k.statusline_config_open,
        inline_menu: composer_area && agent && k.inline_menu_open,
        read_only_menu: composer_area && k.read_only_menu_open,
        composer: composer_area,
    }
}

/// The warping indicator's label.
pub fn warping_label(is_summarizing: bool) -> (r: &'static str)
    ensures
        is_summarizing ==> r@ == "Summarizing conversation"@,
        !is_summarizing ==> r@ == "Phosphorizing"@,
{
    if is_summarizing {
        "Summarizing conversation"
    } else {
        "Phosphorizing"
    }
}

/// The warping row's auto-approve control: `▶▶ Auto approve on|off`,
/// primary while hovered, success right after it was toggled for this
/// conversation, muted otherwise.
pub open spec fn warping_auto_approve_spans(enabled: bool, hovered: bool, feedback_active: bool) -> Seq<
    SpanView,
> {
    seq![
        plain(
            "▶▶ Auto approve "@ + if enabled { "on"@ } else { "off"@ },
            if hovered {
                StyleRole::Primary
            } else if feedback_active {
                StyleRole::SuccessGlyph
            } else {
                StyleRole::Muted
            },
        ),
    ]
}

pub fn render_warping_auto_approve(enabled: bool, hovered: bool, feedback_active: bool) -> (r: Vec<
    StyledSpan,
>)
    ensures
        spans_view(r@) == warping_auto_approve_spans(enabled, hovered, feedback_active),
{
    let mut text = owned("▶▶ Auto approve ");
    text.append(if enabled { "on" } else { "off" });
    let role = if hovered {
        StyleRole::Primary
    } else if feedback_active {
        StyleRole::SuccessGlyph
    } else {
        StyleRole::Muted
    };
    let out = vec![StyledSpan { text, role, bold: false }];
    assert(spans_view(out@) =~= warping_auto_approve_spans(enabled, hovered, feedback_active));
    out
}

/// The confirmation shown after the auto-approve keybinding or command.
pub fn auto_approve_feedback_hint(enabled: bool) -> (r: &'static str)
    ensures
        enabled ==> r == AUTO_APPROVE_ENABLED_HINT,
        !enabled ==> r == AUTO_APPROVE_DISABLED_HINT,
{
    if enabled {
        AUTO_APPROVE_ENABLED_HINT
    } else {
        AUTO_APPROVE_DISABLED_HINT
    }
}

/// The highlight of the conversation whose auto-approve was just toggled
/// from the keyboard, and whether its expiry timer is running.
#[derive(Debug, PartialEq, Eq)]
pub struct AutoApproveFeedback {
    pub conversation_id: Option<String>,
    pub timer_armed: bool,
}

/// What toggling auto-approve shows.
#[derive(Debug, PartialEq, Eq)]
pub struct AutoApproveToggle {
    /// The success hint naming the new state, when feedback is shown.
    pub hint: Option<(HintTone, &'static str)>,
    /// A running feedback timer is superseded (with feedback) or cancelled.
    pub abort_previous_timer: bool,
}

/// After auto-approve was toggled (to `enabled_after_toggle`): with feedback,
/// the selected conversation is highlighted, a fresh expiry timer replaces
/// any running one, and a success hint names the new state; without
/// feedback, any highlight and its timer are cleared.
pub fn toggle_auto_approve_feedback(
    feedback: &mut AutoApproveFeedback,
    show_feedback: bool,
    selected_conversation: Option<&str>,
    enabled_after_toggle: bool,
) -> (r: AutoApproveToggle)
    ensures
        r.abort_previous_timer == old(feedback).timer_armed,
        show_feedback ==> {
            &&& opt_view(final(feedback).conversation_id) == match selected_conversation {
                Some(c) => Some(c@),
                None => None,
            }
            &&& final(feedback).timer_armed
            &&& r.hint == Some(
                (
                    HintTone::Success,
                    if enabled_after_toggle {
                        AUTO_APPROVE_ENABLED_HINT
                    } else {
                        AUTO_APPROVE_DISABLED_HINT
                    },
                ),
            )
        },
        !show_feedback ==> final(feedback).conversation_id is None && !final(feedback).timer_armed
            && r.hint is None,
{
    let abort_previous_timer = feedback.timer_armed;
    if show_feedback {
        feedback.conversation_id = match selected_conversation {
            Some(c) => Some(owned(c)),
            None => None,
        };
        feedback.timer_armed = true;
        AutoApproveToggle {
            hint: Some((HintTone::Success, auto_approve_feedback_hint(enabled_after_toggle))),
            abort_previous_timer,
        }
    } else {
        feedback.conversation_id = None;
        feedback.timer_armed = false;
        AutoApproveToggle { hint: None, abort_previous_timer }
    }
}

/// The feedback timer ran out: the highlight ends.
pub fn auto_approve_feedback_expired(feedback: &mut AutoApproveFeedback)
    ensures
        final(feedback).conversation_id is None,
        !final(feedback).timer_armed,
{
    feedback.conversation_id = None;
    feedback.timer_armed = false;
}

/// The vim-mode setting `/vim` writes: the opposite of the current one.
pub open spec fn vim_mode_target(enabled: bool) -> bool {
    !enabled
}

/// The value `/vim` writes to the vim-mode setting.
pub fn vim_mode_toggle_target(enabled: bool) -> (r: bool)
    ensures
        r == vim_mode_target(enabled),
{
    !enabled
}

/// A conversation can be cancelled once it has exchanges and its turn is
/// running (a brand-new conversation reports in-progress with nothing to cancel).
pub fn is_cancellable(is_empty: bool, in_progress: bool, blocked: bool) -> (r: bool)
    ensures
        r == (!is_empty && (in_progress || blocked)),
{
    !is_empty && (in_progress || blocked)
}

/// The read-only menus above the input.
#[derive(Clone, Copy, Debug, PartialEq, Eq, Structural)]
pub enum ReadOnlyMenuKind {
    Shortcuts,
    Status,
    Todos,
}

/// Where a freshly opened read-only menu anchors its viewport: the TODO menu
/// skips its completed rows and the section title when items are pending.
pub fn read_only_menu_initial_scroll_top(
    kind: ReadOnlyMenuKind,
    todo_pending_items: usize,
    todo_completed_items: usize,
) -> (r: usize)
    ensures
        kind != ReadOnlyMenuKind::Todos ==> r == 0,
        kind == ReadOnlyMenuKind::Todos && todo_pending_items == 0 ==> r == 0,
        kind == ReadOnlyMenuKind::Todos && todo_pending_items > 0 ==> r == if todo_completed_items
            == usize::MAX {
            usize::MAX
        } else {
            (todo_completed_items + 1) as usize
        },
{
    match kind {
        ReadOnlyMenuKind::Shortcuts | ReadOnlyMenuKind::Status => 0,
        ReadOnlyMenuKind::Todos => if todo_pending_items > 0 {
            todo_completed_items.saturating_add(1)
        } else {
            0
        },
    }
}

/// Identifies the TODO list an open menu shows: the selected conversation
/// and how many lists it has accumulated, while its active list is non-empty.
pub fn active_todo_menu_list_key(
    selected_conversation: Option<&str>,
    active_list_non_empty: bool,
    todo_list_count: usize,
) -> (r: Option<(String, usize)>)
    ensures
        selected_conversation is None || !active_list_non_empty ==> r is None,
        selected_conversation is Some && active_list_non_empty ==> (r matches Some((id, n)) && id@
            == selected_conversation->0@ && n == todo_list_count),
{
    match selected_conversation {
        Some(id) => if active_list_non_empty {
            Some((owned(id), todo_list_count))
        } else {
            None
        },
        None => None,
    }
}

/// What keeping the open TODO menu pointed at the live list requires.
#[derive(Clone, Copy, Debug, PartialEq, Eq, Structural)]
pub enum TodoMenuSync {
    /// Nothing changes.
    Keep,
    /// A new list: re-anchor the scroll position.
    Reanchor,
    /// The list went away: close the menu.
    Close,
}

pub open spec fn same_key(a: Option<(String, usize)>, b: Option<(String, usize)>) -> bool {
    match (a, b) {
        (Some((x, n)), Some((y, m))) => x@ == y@ && n == m,
        (None, None) => true,
        _ => false,
    }
}

/// Keeps the recorded key of the open TODO menu in step with the live list.
pub fn sync_open_todo_menu_list(
    open_key: &mut Option<(String, usize)>,
    todo_menu_open: bool,
    live_key: Option<(String, usize)>,
) -> (r: TodoMenuSync)
    ensures
        !todo_menu_open ==> r == TodoMenuSync::Keep && *final(open_key) is None,
        todo_menu_open && live_key is None ==> r == TodoMenuSync::Close && *final(open_key) is None,
        todo_menu_open && live_key is Some ==> *final(open_key) == live_key && r == if same_key(
            *old(open_key),
            live_key,
        ) {
            TodoMenuSync::Keep
        } else {
            TodoMenuSync::Reanchor
        },
{
    if !todo_menu_open {
        *open_key = None;
        return TodoMenuSync::Keep;
    }
    let key = match live_key {
        Some(k) => k,
        None => {
            *open_key = None;
            return TodoMenuSync::Close;
        },
    };
    let same = match &*open_key {
        Some((id, n)) => *id == key.0 && *n == key.1,
        None => false,
    };
    *open_key = Some(key);
    if same {
        TodoMenuSync::Keep
    } else {
        TodoMenuSync::Reanchor
    }
}

/// Last-response exchanges whose completed summary is hidden.
#[derive(Debug)]
pub struct HiddenSummaries {
    exchange_ids: Vec<String>,
}

/// The hidden exchange ids, as text.
pub closed spec fn hidden_ids(h: HiddenSummaries) -> Seq<Seq<char>> {
    h.exchange_ids@.map_values(|s: String| s@)
}

/// The set of hidden exchange ids.
pub open spec fn hidden_set(h: HiddenSummaries) -> Set<Seq<char>> {
    hidden_ids(h).to_set()
}

/// `hidden` with `id` shown if it was hidden, hidden if it was shown.
pub open spec fn toggled(hidden: Set<Seq<char>>, id: Seq<char>) -> Set<Seq<char>> {
    if hidden.contains(id) {
        hidden.remove(id)
    } else {
        hidden.insert(id)
    }
}

impl HiddenSummaries {
    /// Each id is stored at most once.
    pub closed spec fn wf(self) -> bool {
        hidden_ids(self).no_duplicates()
    }

    /// Nothing hidden.
    pub fn new() -> (r: Self)
        ensures
            r.wf(),
            hidden_set(r) == Set::<Seq<char>>::empty(),
    {
        let r = HiddenSummaries { exchange_ids: Vec::new() };
        assert(hidden_ids(r) =~= Seq::<Seq<char>>::empty());
        assert(hidden_set(r) =~= Set::<Seq<char>>::empty());
        r
    }

    fn position(&self, exchange_id: &str) -> (r: Option<usize>)
        ensures
            match r {
                Some(i) => i < self.exchange_ids@.len() && hidden_ids(*self)[i as int]
                    == exchange_id@,
                None => !hidden_set(*self).contains(exchange_id@),
            },
    {
        let target: String = exchange_id.to_owned();
        let mut i: usize = 0;
        while i < self.exchange_ids.len()
            invariant
                i <= self.exchange_ids@.len(),
                target@ == exchange_id@,
                forall|j: int| 0 <= j < i ==> #[trigger] hidden_ids(*self)[j] != exchange_id@,
            decreases self.exchange_ids.len() - i,
        {
            if self.exchange_ids[i] == target {
                return Some(i);
            }
            i = i + 1;
        }
        proof {
            if hidden_set(*self).contains(exchange_id@) {
                let views = hidden_ids(*self);
                let k = choose|k: int| 0 <= k < views.len() && views[k] == exchange_id@;
                assert(views[k] == exchange_id@);
            }
        }
        None
    }

    /// Whether the summary of `exchange_id` shows.
    pub fn is_visible(&self, exchange_id: &str) -> (r: bool)
        ensures
            r == !hidden_set(*self).contains(exchange_id@),
    {
        match self.position(exchange_id) {
            Some(i) => {
                proof {
                    assert(hidden_ids(*self).contains(exchange_id@)) by {
                        assert(hidden_ids(*self)[i as int] == exchange_id@);
                    }
                }
                false
            },
            None => true,
        }
    }

    /// Hides a visible summary, or shows a hidden one.
    pub fn toggle(&mut self, exchange_id: &str)
        requires
            old(self).wf(),
        ensures
            final(self).wf(),
            hidden_set(*final(self)) == toggled(hidden_set(*old(self)), exchange_id@),
    {
        let ghost was = hidden_ids(*self);
        match self.position(exchange_id) {
            Some(i) => {
                self.exchange_ids.remove(i);
                proof {
                    let now = hidden_ids(*self);
                    assert(now =~= was.remove(i as int));
                    assert(was.contains(exchange_id@)) by {
                        assert(was[i as int] == exchange_id@);
                    }
                    assert forall|a: int, b: int| 0 <= a < b < now.len() implies now[a]
                        != now[b] by {
                        let a2 = if a < i { a } else { a + 1 };
                        let b2 = if b < i { b } else { b + 1 };
                        assert(now[a] == was[a2]);
                        assert(now[b] == was[b2]);
                    }
                    assert forall|v: Seq<char>| was.to_set().remove(exchange_id@).contains(v)
                        implies now.to_set().contains(v) by {
                        {
                            let a = choose|a: int| 0 <= a < was.len() && was[a] == v;
                            assert(a != i);
                            if a < i {
                                assert(now[a] == v);
                            } else {
                                assert(now[a - 1] == v);
                            }
                        }
                    }
                    assert forall|v: Seq<char>| now.to_set().contains(v)
                        implies was.to_set().remove(exchange_id@).contains(v) by {
                        {
                            let a = choose|a: int| 0 <= a < now.len() && now[a] == v;
                            let a2 = if a < i { a } else { a + 1 };
                            assert(was[a2] == v);
                            assert(a2 != i);
                        }
                    }
                    assert(now.to_set() =~= was.to_set().remove(exchange_id@));
                }
            },
            None => {
                self.exchange_ids.push(exchange_id.to_owned());
                proof {
                    let now = hidden_ids(*self);
                    assert(now =~= was.push(exchange_id@));
                    assert forall|a: int, b: int| 0 <= a < b < now.len() implies now[a]
                        != now[b] by {
                        if b == was.len() {
                            assert(was.contains(now[a]));
                        }
                    }
                    assert forall|v: Seq<char>| now.to_set().contains(v)
                        <==> was.to_set().insert(exchange_id@).contains(v) by {
                        if now.contains(v) && v != exchange_id@ {
                            let a = choose|a: int| 0 <= a < now.len() && now[a] == v;
                            assert(was[a] == v);
                        }
                        if was.contains(v) {
                            let a = choose|a: int| 0 <= a < was.len() && was[a] == v;
                            assert(now[a] == v);
                        }
                        if v == exchange_id@ {
                            assert(now[was.len() as int] == v);
                        }
                    }
                    assert(now.to_set() =~= was.to_set().insert(exchange_id@));
                }
            },
        }
    }
}

/// The selected conversation as the response-summary toggle reads it.
#[derive(Debug, PartialEq, Eq)]
pub struct SummaryTarget {
    pub latest_exchange_id: Option<String>,
    pub is_empty: bool,
    pub is_done: bool,
}

pub open spec fn summary_eligibility(selected: Option<&SummaryTarget>) -> Option<(bool, bool)> {
    match selected {
        Some(t) => Some((t.is_empty, t.is_done)),
        None => None,
    }
}

/// Shows or hides the selected conversation's latest response summary, under
/// the same eligibility rules as `/cost`; returns the hint shown instead
/// when it is not eligible (or has no exchange yet).
pub fn toggle_response_summary_visibility(hidden: &mut HiddenSummaries, selected: Option<&SummaryTarget>) -> (r: Option<&'static str>)
    requires
        old(hidden).wf(),
    ensures
        final(hidden).wf(),
        cost_unavailable(summary_eligibility(selected)) is Some ==> r == cost_unavailable(
            summary_eligibility(selected),
        ) && hidden_set(*final(hidden)) == hidden_set(*old(hidden)),
        cost_unavailable(summary_eligibility(selected)) is None ==> match selected->0.latest_exchange_id {
            None => r == Some(COST_NO_ACTIVE_CONVERSATION_HINT) && hidden_set(*final(hidden))
                == hidden_set(*old(hidden)),
            Some(id) => r is None && hidden_set(*final(hidden)) == toggled(hidden_set(*old(hidden)), id@),
        },
{
    let eligibility = match selected {
        Some(t) => Some((t.is_empty, t.is_done)),
        None => None,
    };
    if let Some(hint) = cost_command_unavailable_hint(eligibility) {
        return Some(hint);
    }
    let target = match selected {
        Some(t) => t,
        None => return Some(COST_NO_ACTIVE_CONVERSATION_HINT),
    };
    match &target.latest_exchange_id {
        Some(id) => {
            hidden.toggle(id.as_str());
            None
        },
        None => Some(COST_NO_ACTIVE_CONVERSATION_HINT),
    }
}

/// Editor rows the composer shows before it scrolls.
pub const MAX_INPUT_TEXT_ROWS: u16 = 6;
/// The composer's border rows and the padding row inside each border.
pub const BORDERED_INPUT_CHROME_ROWS: u16 = 4;

/// How the composer and the row under it are drawn.
#[derive(Clone, Copy, Debug, PartialEq, Eq)]
pub struct ComposerChrome {
    /// The composer border's colour: the shell accent in shell mode.
    pub border_role: StyleRole,
    /// A one-row attachment bar above the composer.
    pub attachment_row: bool,
    /// Rows the bordered composer may take.
    pub composer_rows: u16,
    /// The tab bar's footer replaces the statusline footer.
    pub tab_footer: bool,
}

/// The composer's chrome: its border colour, the attachment row, room for
/// every editor row inside the border and its padding, and which footer
/// sits under it.
pub fn composer_chrome(is_shell_mode: bool, attachments_should_render: bool, tabs_focused: bool) -> (r: ComposerChrome)
    ensures
        r.border_role == if is_shell_mode { StyleRole::ShellCommandAccent } else { StyleRole::AccentBorder },
        r.attachment_row == attachments_should_render,
        r.composer_rows == MAX_INPUT_TEXT_ROWS + BORDERED_INPUT_CHROME_ROWS,
        r.tab_footer == tabs_focused,
{
    ComposerChrome {
        border_role: if is_shell_mode { StyleRole::ShellCommandAccent } else { StyleRole::AccentBorder },
        attachment_row: attachments_should_render,
        composer_rows: MAX_INPUT_TEXT_ROWS + BORDERED_INPUT_CHROME_ROWS,
        tab_footer: tabs_focused,
    }
}

/// What a terminal wakeup does.
#[derive(Clone, Copy, Debug, PartialEq, Eq)]
pub struct TerminalWakeup {
    /// Only the focused session repaints.
    pub redraw: bool,
    /// Focus moves from the hidden composer to the process that took the PTY.
    pub refocus: bool,
}

/// A terminal wakeup repaints the focused session only; there, a command
/// that became long-running while the composer still held focus takes it.
pub fn handle_terminal_wakeup(is_focused_session: bool, pty_owns_input: bool, input_focused: bool) -> (r: TerminalWakeup)
    ensures
        r.redraw == is_focused_session,
        r.refocus == (is_focused_session && pty_owns_input && input_focused),
{
    TerminalWakeup {
        redraw: is_focused_session,
        refocus: wakeup_refocuses(is_focused_session, pty_owns_input, input_focused),
    }
}

/// The read-only menu open after the TODO toggle: nothing changes without an
/// active TODO list; otherwise an open TODO menu closes and any other state
/// (another menu included) gives way to the TODO menu.
pub fn toggle_todo_menu(open_read_only_menu: Option<ReadOnlyMenuKind>, has_active_todo_list: bool) -> (r: Option<ReadOnlyMenuKind>)
    ensures
        !has_active_todo_list ==> r == open_read_only_menu,
        has_active_todo_list ==> r == if open_read_only_menu == Some(ReadOnlyMenuKind::Todos) {
            None
        } else {
            Some(ReadOnlyMenuKind::Todos)
        },
{
    if !has_active_todo_list {
        return open_read_only_menu;
    }
    if todo_menu_is_open(open_read_only_menu) {
        None
    } else {
        Some(ReadOnlyMenuKind::Todos)
    }
}

/// Whether the open read-only menu, if any, is the TODO menu.
pub fn todo_menu_is_open(open_read_only_menu: Option<ReadOnlyMenuKind>) -> (r: bool)
    ensures
        r == (open_read_only_menu == Some(ReadOnlyMenuKind::Todos)),
{
    match open_read_only_menu {
        Some(ReadOnlyMenuKind::Todos) => true,
        _ => false,
    }
}

/// The server token the exit summary names: the selected conversation's,
/// given as `(is_empty, server_token)`, unless it is empty.
pub fn exit_summary_token(selected_conversation: Option<(bool, Option<&str>)>) -> (r: Option<String>)
    ensures
        match selected_conversation {
            Some((false, Some(token))) => r matches Some(t) && t@ == token@,
            _ => r is None,
        },
{
    match selected_conversation {
        Some((false, Some(token))) => Some(owned(token)),
        _ => None,
    }
}

/// What ctrl-d does.
#[derive(Clone, Copy, Debug, PartialEq, Eq, Structural)]
pub enum EofAction {
    /// Exit the TUI.
    Exit,
    /// Delete the character after the cursor.
    DeleteForward,
}

/// Ctrl-d exits on an empty composer and otherwise deletes forward.
pub fn eof_action(input_is_empty: bool) -> (r: EofAction)
    ensures
        r == if input_is_empty { EofAction::Exit } else { EofAction::DeleteForward },
{
    if input_is_empty {
        EofAction::Exit
    } else {
        EofAction::DeleteForward
    }
}

/// Why a conversation switch or fork is refused, or what to restore.
#[derive(Debug, PartialEq, Eq)]
pub enum SwitchDecision {
    Refused(&'static str),
    Restore(RestoreTarget),
}

/// The conversation-list entry the user accepted.
#[derive(Debug, PartialEq, Eq)]
pub struct ConversationEntry {
    pub available: bool,
    pub local_conversation_id: Option<String>,
    pub server_conversation_token: Option<String>,
}

/// The guards shared by switching and forking, in order.
pub open spec fn switch_guard(
    restore_loading: bool,
    can_start_new_conversation: bool,
    current_busy: bool,
) -> Option<&'static str> {
    if restore_loading {
        Some(SWITCH_LOADING_HINT)
    } else if !can_start_new_conversation {
        Some(SWITCH_COMMAND_RUNNING_HINT)
    } else if current_busy {
        Some(SWITCH_CONVERSATION_RUNNING_HINT)
    } else {
        None
    }
}

/// Accepting a conversation from the list: refused while a restore loads,
/// while a command runs, while the current conversation is busy, or when
/// the entry is gone or unavailable; otherwise restore it by its local id,
/// else by its server token.
pub fn accept_conversation(
    restore_loading: bool,
    can_start_new_conversation: bool,
    current_busy: bool,
    entry: Option<ConversationEntry>,
) -> (r: SwitchDecision)
    ensures
        switch_guard(restore_loading, can_start_new_conversation, current_busy) is Some ==> r
            == SwitchDecision::Refused(
            switch_guard(restore_loading, can_start_new_conversation, current_busy)->0,
        ),
        switch_guard(restore_loading, can_start_new_conversation, current_busy) is None ==> match entry {
            Some(e) => if !e.available {
                r == SwitchDecision::Refused(SWITCH_UNAVAILABLE_HINT)
            } else {
                match (e.local_conversation_id, e.server_conversation_token) {
                    (Some(id), _) => r == SwitchDecision::Restore(RestoreTarget::Local(id)),
                    (None, Some(token)) => r == SwitchDecision::Restore(RestoreTarget::Server(token)),
                    (None, None) => r == SwitchDecision::Refused(SWITCH_UNAVAILABLE_HINT),
                }
            },
            None => r == SwitchDecision::Refused(SWITCH_UNAVAILABLE_HINT),
        },
{
    if restore_loading {
        return SwitchDecision::Refused(SWITCH_LOADING_HINT);
    }
    if !can_start_new_conversation {
        return SwitchDecision::Refused(SWITCH_COMMAND_RUNNING_HINT);
    }
    if current_busy {
        return SwitchDecision::Refused(SWITCH_CONVERSATION_RUNNING_HINT);
    }
    let entry = match entry {
        Some(e) => e,
        None => return SwitchDecision::Refused(SWITCH_UNAVAILABLE_HINT),
    };
    if !entry.available {
        return SwitchDecision::Refused(SWITCH_UNAVAILABLE_HINT);
    }
    match (entry.local_conversation_id, entry.server_conversation_token) {
        (Some(id), _) => SwitchDecision::Restore(RestoreTarget::Local(id)),
        (None, Some(token)) => SwitchDecision::Restore(RestoreTarget::Server(token)),
        (None, None) => SwitchDecision::Refused(SWITCH_UNAVAILABLE_HINT),
    }
}

/// Whether a fork may proceed: the switch guards, then a selected source
/// conversation that is not empty.
pub fn fork_guard(
    restore_loading: bool,
    can_start_new_conversation: bool,
    current_busy: bool,
    has_source: bool,
    source_is_empty: bool,
) -> (r: Option<&'static str>)
    ensures
        switch_guard(restore_loading, can_start_new_conversation, current_busy) is Some ==> r
            == switch_guard(restore_loading, can_start_new_conversation, current_busy),
        switch_guard(restore_loading, can_start_new_conversation, current_busy) is None ==> r == if !has_source {
            Some(FORK_REQUIRES_CONVERSATION_HINT)
        } else if source_is_empty {
            Some(FORK_EMPTY_CONVERSATION_HINT)
        } else {
            None
        },
{
    if restore_loading {
        Some(SWITCH_LOADING_HINT)
    } else if !can_start_new_conversation {
        Some(SWITCH_COMMAND_RUNNING_HINT)
    } else if current_busy {
        Some(SWITCH_CONVERSATION_RUNNING_HINT)
    } else if !has_source {
        Some(FORK_REQUIRES_CONVERSATION_HINT)
    } else if source_is_empty {
        Some(FORK_EMPTY_CONVERSATION_HINT)
    } else {
        None
    }
}

} // verus!
