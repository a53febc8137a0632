//! The session surface's key bindings: which action each key triggers, and
//! the keymap context each binding is live in.
use vstd::prelude::*;
use crate::session_ui::{SessionFlag, TRIGGER_COMPLETIONS_BINDING_NAME, PASTE_IMAGE_BINDING_NAME, AUTO_APPROVE_TOGGLE_BINDING_NAME, ATTACH_AGENT_TO_RUNNING_COMMAND_BINDING_NAME, DETACH_AGENT_FROM_RUNNING_COMMAND_BINDING_NAME};

verus! {

/// Returns focus from the orchestration tab bar to the session input.
pub const FOCUS_INPUT_BINDING_NAME: &'static str = "tui:orchestration_tabs:focus_input";
/// Returns to the main agent and focuses its input.
pub const FOCUS_MAIN_BINDING_NAME: &'static str = "tui:orchestration_tabs:focus_main";

/// The actions the session's bindings trigger.
#[derive(Clone, Copy, Debug, PartialEq, Eq, Structural)]
pub enum SessionAction {
    Eof,
    CancelRestore,
    HandBackTerminalUseControl,
    AllowBlockedLrcAction,
    RejectBlockedLrcAction,
    ToggleAutoApprove,
    AttachAgentToRunningCommand,
    DetachAgentFromRunningCommand,
    TogglePlan,
    FocusAttachments,
    TriggerCompletions,
    PasteFromClipboard,
    FocusDefaultInteractionTarget,
    FocusMainOrchestrationTab,
}

/// Where a binding is live.
#[derive(Clone, Copy, Debug, PartialEq, Eq, Structural)]
pub enum BindingContext {
    /// The composer has focus.
    InputView,
    /// The session sets this flag.
    Flag(SessionFlag),
    /// The session surface is in the focus chain.
    SessionView,
    /// The composer or the session surface, while the session sets this flag.
    ComposerWith(SessionFlag),
    /// The composer or the session surface, while the session does not set this flag.
    ComposerWithout(SessionFlag),
    /// The composer or the session surface, with a toggleable plan and no
    /// enhanced keyboard (which reaches ctrl-shift-p itself).
    ContextualPlanToggle,
    /// The session surface while its orchestration tab bar has focus.
    TabBarFocused,
}

/// The keymap context a key press is matched in: which views are in the
/// focus chain, and the flags the session sets.
#[derive(Debug, PartialEq, Eq)]
pub struct KeyContext {
    pub input_view: bool,
    pub session_view: bool,
    pub flags: Vec<SessionFlag>,
}

/// A binding: its editable name (where it has a fixed one here), its key
/// (where it has a fixed one here), the action, and its context.
#[derive(Clone, Copy, Debug, PartialEq, Eq)]
pub struct SessionBinding {
    pub name: Option<&'static str>,
    pub key: Option<&'static str>,
    pub action: SessionAction,
    pub context: BindingContext,
}

pub open spec fn has_flag(cx: KeyContext, flag: SessionFlag) -> bool {
    cx.flags@.contains(flag)
}

/// Whether a binding of context `c` is live in `cx`.
pub open spec fn context_holds(c: BindingContext, cx: KeyContext) -> bool {
    let composer = cx.input_view || cx.session_view;
    match c {
        BindingContext::InputView => cx.input_view,
        BindingContext::Flag(f) => has_flag(cx, f),
        BindingContext::SessionView => cx.session_view,
        BindingContext::ComposerWith(f) => composer && has_flag(cx, f),
        BindingContext::ComposerWithout(f) => composer && !has_flag(cx, f),
        BindingContext::ContextualPlanToggle => composer && has_flag(cx, SessionFlag::PlanToggleAvailable)
            && !has_flag(cx, SessionFlag::KeyboardEnhancementAvailable),
        BindingContext::TabBarFocused => cx.session_view && has_flag(
            cx,
            SessionFlag::OrchestrationTabBarFocused,
        ),
    }
}

pub open spec fn binding(
    name: Option<&'static str>,
    key: Option<&'static str>,
    action: SessionAction,
    context: BindingContext,
) -> SessionBinding {
    SessionBinding { name, key, action, context }
}

/// The session's bindings, in registration order. The hand-back and the
/// blocked-action bindings use keys configured elsewhere.
pub open spec fn session_binding_table() -> Seq<SessionBinding> {
    seq![
        binding(None, Some("ctrl-d"), SessionAction::Eof, BindingContext::InputView),
        binding(
            None,
            Some("escape"),
            SessionAction::CancelRestore,
            BindingContext::Flag(SessionFlag::CanCancelRestore),
        ),
        binding(
            None,
            None,
            SessionAction::HandBackTerminalUseControl,
            BindingContext::Flag(SessionFlag::CanHandBackControl),
        ),
        binding(
            None,
            None,
            SessionAction::AllowBlockedLrcAction,
            BindingContext::Flag(SessionFlag::CanAllowBlockedLrcAction),
        ),
        binding(
            None,
            None,
            SessionAction::RejectBlockedLrcAction,
            BindingContext::Flag(SessionFlag::CanRejectBlockedLrcAction),
        ),
        binding(
            Some(AUTO_APPROVE_TOGGLE_BINDING_NAME),
            Some("ctrl-shift-I"),
            SessionAction::ToggleAutoApprove,
            BindingContext::SessionView,
        ),
        binding(
            Some(ATTACH_AGENT_TO_RUNNING_COMMAND_BINDING_NAME),
            Some("ctrl-shift-enter"),
            SessionAction::AttachAgentToRunningCommand,
            BindingContext::ComposerWith(SessionFlag::CanAttachAgentToRunningCommand),
        ),
        binding(
            Some(DETACH_AGENT_FROM_RUNNING_COMMAND_BINDING_NAME),
            Some("escape"),
            SessionAction::DetachAgentFromRunningCommand,
            BindingContext::ComposerWith(SessionFlag::CanDetachAgentFromRunningCommand),
        ),
        binding(None, Some("ctrl-shift-P"), SessionAction::TogglePlan, BindingContext::SessionView),
        binding(None, Some("ctrl-p"), SessionAction::TogglePlan, BindingContext::ContextualPlanToggle),
        binding(
            None,
            Some("tab"),
            SessionAction::FocusAttachments,
            BindingContext::ComposerWith(SessionFlag::AttachmentsAvailable),
        ),
        binding(
            Some(TRIGGER_COMPLETIONS_BINDING_NAME),
            Some("tab"),
            SessionAction::TriggerCompletions,
            BindingContext::ComposerWithout(SessionFlag::AttachmentsAvailable),
        ),
        binding(
            Some(PASTE_IMAGE_BINDING_NAME),
            Some("ctrl-v"),
            SessionAction::PasteFromClipboard,
            BindingContext::ComposerWith(SessionFlag::ComposerShortcutsActive),
        ),
        binding(
            Some(FOCUS_INPUT_BINDING_NAME),
            Some("down"),
            SessionAction::FocusDefaultInteractionTarget,
            BindingContext::TabBarFocused,
        ),
        binding(
            Some(FOCUS_INPUT_BINDING_NAME),
            Some("shift-down"),
            SessionAction::FocusDefaultInteractionTarget,
            BindingContext::TabBarFocused,
        ),
        binding(
            Some(FOCUS_MAIN_BINDING_NAME),
            Some("escape"),
            SessionAction::FocusMainOrchestrationTab,
            BindingContext::TabBarFocused,
        ),
    ]
}

/// The session's bindings.
pub fn session_bindings() -> (r: Vec<SessionBinding>)
    ensures
        r@ == session_binding_table(),
{
    let r = vec![
        SessionBinding { name: None, key: Some("ctrl-d"), action: SessionAction::Eof, context: BindingContext::InputView },
        SessionBinding {
            name: None,
            key: Some("escape"),
            action: SessionAction::CancelRestore,
            context: BindingContext::Flag(SessionFlag::CanCancelRestore),
        },
        SessionBinding {
            name: None,
            key: None,
            action: SessionAction::HandBackTerminalUseControl,
            context: BindingContext::Flag(SessionFlag::CanHandBackControl),
        },
        SessionBinding {
            name: None,
            key: None,
            action: SessionAction::AllowBlockedLrcAction,
            context: BindingContext::Flag(SessionFlag::CanAllowBlockedLrcAction),
        },
        SessionBinding {
            name: None,
            key: None,
            action: SessionAction::RejectBlockedLrcAction,
            context: BindingContext::Flag(SessionFlag::CanRejectBlockedLrcAction),
        },
        SessionBinding {
            name: Some(AUTO_APPROVE_TOGGLE_BINDING_NAME),
            key: Some("ctrl-shift-I"),
            action: SessionAction::ToggleAutoApprove,
            context: BindingContext::SessionView,
        },
        SessionBinding {
            name: Some(ATTACH_AGENT_TO_RUNNING_COMMAND_BINDING_NAME),
            key: Some("ctrl-shift-enter"),
            action: SessionAction::AttachAgentToRunningCommand,
            context: BindingContext::ComposerWith(SessionFlag::CanAttachAgentToRunningCommand),
        },
        SessionBinding {
            name: Some(DETACH_AGENT_FROM_RUNNING_COMMAND_BINDING_NAME),
            key: Some("escape"),
            action: SessionAction::DetachAgentFromRunningCommand,
            context: BindingContext::ComposerWith(SessionFlag::CanDetachAgentFromRunningCommand),
        },
        SessionBinding {
            name: None,
            key: Some("ctrl-shift-P"),
            action: SessionAction::TogglePlan,
            context: BindingContext::SessionView,
        },
        SessionBinding {
            name: None,
            key: Some("ctrl-p"),
            action: SessionAction::TogglePlan,
            context: BindingContext::ContextualPlanToggle,
        },
        SessionBinding {
            name: None,
            key: Some("tab"),
            action: SessionAction::FocusAttachments,
            context: BindingContext::ComposerWith(SessionFlag::AttachmentsAvailable),
        },
        SessionBinding {
            name: Some(TRIGGER_COMPLETIONS_BINDING_NAME),
            key: Some("tab"),
            action: SessionAction::TriggerCompletions,
            context: BindingContext::ComposerWithout(SessionFlag::AttachmentsAvailable),
        },
        SessionBinding {
            name: Some(PASTE_IMAGE_BINDING_NAME),
            key: Some("ctrl-v"),
            action: SessionAction::PasteFromClipboard,
            context: BindingContext::ComposerWith(SessionFlag::ComposerShortcutsActive),
        },
        SessionBinding {
            name: Some(FOCUS_INPUT_BINDING_NAME),
            key: Some("down"),
            action: SessionAction::FocusDefaultInteractionTarget,
            context: BindingContext::TabBarFocused,
        },
        SessionBinding {
            name: Some(FOCUS_INPUT_BINDING_NAME),
            key: Some("shift-down"),
            action: SessionAction::FocusDefaultInteractionTarget,
            context: BindingContext::TabBarFocused,
        },
        SessionBinding {
            name: Some(FOCUS_MAIN_BINDING_NAME),
            key: Some("escape"),
            action: SessionAction::FocusMainOrchestrationTab,
            context: BindingContext::TabBarFocused,
        },
    ];
    assert(r@ =~= session_binding_table());
    r
}

/// The Windows-only paste binding, alt-v beside ctrl-v.
pub open spec fn windows_paste_binding() -> SessionBinding {
    binding(
        Some(PASTE_IMAGE_BINDING_NAME),
        Some("alt-v"),
        SessionAction::PasteFromClipboard,
        BindingContext::ComposerWith(SessionFlag::ComposerShortcutsActive),
    )
}

/// The bindings on a platform: on Windows, alt-v pastes too, registered
/// right after ctrl-v.
pub open spec fn platform_binding_table(windows: bool) -> Seq<SessionBinding> {
    if windows {
        session_binding_table().take(13) + seq![windows_paste_binding()] + session_binding_table().skip(13)
    } else {
        session_binding_table()
    }
}

/// The session's bindings on Windows (`windows`) or elsewhere.
pub fn platform_session_bindings(windows: bool) -> (r: Vec<SessionBinding>)
    ensures
        r@ == platform_binding_table(windows),
{
    let mut r = session_bindings();
    if windows {
        r.insert(
            13,
            SessionBinding {
                name: Some(PASTE_IMAGE_BINDING_NAME),
                key: Some("alt-v"),
                action: SessionAction::PasteFromClipboard,
                context: BindingContext::ComposerWith(SessionFlag::ComposerShortcutsActive),
            },
        );
        assert(r@ =~= platform_binding_table(windows));
    }
    r
}

fn flag_is_set(cx: &KeyContext, flag: SessionFlag) -> (r: bool)
    ensures
        r == has_flag(*cx, flag),
{
    let mut i: usize = 0;
    while i < cx.flags.len()
        invariant
            i <= cx.flags@.len(),
            forall|j: int| 0 <= j < i ==> cx.flags@[j] != flag,
        decreases cx.flags.len() - i,
    {
        if cx.flags[i] == flag {
            return true;
        }
        i = i + 1;
    }
    false
}

/// Whether `binding` is live in `cx`.
pub fn binding_in_context(binding: &SessionBinding, cx: &KeyContext) -> (r: bool)
    ensures
        r == context_holds(binding.context, *cx),
{
    let composer = cx.input_view || cx.session_view;
    match binding.context {
        BindingContext::InputView => cx.input_view,
        BindingContext::Flag(f) => flag_is_set(cx, f),
        BindingContext::SessionView => cx.session_view,
        BindingContext::ComposerWith(f) => composer && flag_is_set(cx, f),
        BindingContext::ComposerWithout(f) => composer && !flag_is_set(cx, f),
        BindingContext::ContextualPlanToggle => composer && flag_is_set(cx, SessionFlag::PlanToggleAvailable)
            && !flag_is_set(cx, SessionFlag::KeyboardEnhancementAvailable),
        BindingContext::TabBarFocused => cx.session_view && flag_is_set(
            cx,
            SessionFlag::OrchestrationTabBarFocused,
        ),
    }
}

} // verus!
