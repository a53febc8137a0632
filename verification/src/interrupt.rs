//! Ctrl-c on the session surface, and the orchestration kill targets it
//! acts on.
use vstd::prelude::*;
use vstd::string::*;
use crate::restore::{ConversationRestore, RestoreState, wrapping_next};

verus! {

/// A child agent tab of the rendered orchestration level.
#[derive(Debug, PartialEq, Eq)]
pub struct OrchestrationChild {
    pub conversation_id: String,
    /// Loaded descendants under this child, when it orchestrates a subtree.
    pub descendant_count: Option<usize>,
}

/// Live orchestration state of the session's conversation tree.
#[derive(Debug, PartialEq, Eq)]
pub struct OrchestrationSnapshot {
    pub root_conversation_id: String,
    /// The conversation occupying the main-tab slot (the root unless drilled in).
    pub anchor_conversation_id: String,
    pub selected_conversation_id: String,
    pub children: Vec<OrchestrationChild>,
}

/// Index of the first child with id `id`, if any.
pub open spec fn first_child_index(children: Seq<OrchestrationChild>, id: Seq<char>) -> Option<int> {
    if exists|i: int| 0 <= i < children.len() && children[i].conversation_id@ == id {
        Some(
            choose|i: int|
                0 <= i < children.len() && children[i].conversation_id@ == id && forall|j: int|
                    0 <= j < i ==> children[j].conversation_id@ != id,
        )
    } else {
        None
    }
}

/// Descendants of the selected child tab, zero when unknown.
pub open spec fn selected_child_descendants(s: OrchestrationSnapshot) -> nat {
    match first_child_index(s.children@, s.selected_conversation_id@) {
        Some(i) => match s.children@[i].descendant_count {
            Some(n) => n as nat,
            None => 0,
        },
        None => 0,
    }
}

/// The agent a single ctrl-c kills while the tab bar has focus, with its
/// loaded-descendant count: a selected child tab, or a drilled-in anchor in
/// the main-tab slot. The root is never a kill target.
pub open spec fn kill_target(s: OrchestrationSnapshot, anchor_descendants: Option<usize>) -> Option<
    (Seq<char>, nat),
> {
    if s.selected_conversation_id@ != s.anchor_conversation_id@ {
        Some((s.selected_conversation_id@, selected_child_descendants(s)))
    } else if s.anchor_conversation_id@ == s.root_conversation_id@ {
        None
    } else {
        Some(
            (
                s.anchor_conversation_id@,
                match anchor_descendants {
                    Some(n) => n as nat,
                    None => 0,
                },
            ),
        )
    }
}

/// The bar-focused kill target. `anchor_descendants` is the loaded subtree
/// size of the anchor conversation.
pub fn bar_focused_kill_target(
    snapshot: Option<&OrchestrationSnapshot>,
    anchor_descendants: Option<usize>,
) -> (r: Option<(String, usize)>)
    ensures
        snapshot is None ==> r is None,
        snapshot is Some ==> match kill_target(*snapshot->0, anchor_descendants) {
            Some((id, n)) => r matches Some((rid, rn)) && rid@ == id && rn == n,
            None => r is None,
        },
{
    let s = match snapshot {
        Some(s) => s,
        None => return None,
    };
    if s.selected_conversation_id != s.anchor_conversation_id {
        let mut count: usize = 0;
        let mut i: usize = 0;
        let mut found = false;
        while i < s.children.len() && !found
            invariant
                i <= s.children@.len(),
                !found ==> forall|j: int| 0 <= j < i ==> s.children@[j].conversation_id@
                    != s.selected_conversation_id@,
                !found ==> count == 0,
                found ==> i > 0 && first_child_index(s.children@, s.selected_conversation_id@)
                    == Some((i - 1) as int) && count == match s.children@[i - 1].descendant_count {
                    Some(n) => n,
                    None => 0,
                },
            decreases s.children.len() - i + if found { 0int } else { 1int },
        {
            if s.children[i].conversation_id == s.selected_conversation_id {
                found = true;
                count = match s.children[i].descendant_count {
                    Some(n) => n,
                    None => 0,
                };
                let ghost k = i as int;
                assert(first_child_index(s.children@, s.selected_conversation_id@) == Some(k)) by {
                    let w = choose|w: int|
                        0 <= w < s.children@.len() && s.children@[w].conversation_id@
                            == s.selected_conversation_id@ && forall|j: int|
                            0 <= j < w ==> s.children@[j].conversation_id@
                                != s.selected_conversation_id@;
                    assert(0 <= k < s.children@.len() && s.children@[k].conversation_id@
                        == s.selected_conversation_id@);
                    if w < k {
                    } else if w > k {
                        assert(s.children@[k].conversation_id@ != s.selected_conversation_id@);
                    }
                }
            }
            i = i + 1;
        }
        return Some((s.selected_conversation_id.clone(), count));
    }
    if s.anchor_conversation_id == s.root_conversation_id {
        return None;
    }
    let n = match anchor_descendants {
        Some(n) => n,
        None => 0,
    };
    Some((s.anchor_conversation_id.clone(), n))
}

/// The child conversation being viewed, when it is not the tree's root.
pub fn selected_child_conversation(snapshot: Option<&OrchestrationSnapshot>) -> (r: Option<String>)
    ensures
        snapshot is None ==> r is None,
        snapshot is Some ==> if snapshot->0.selected_conversation_id@
            != snapshot->0.root_conversation_id@ {
            r matches Some(id) && id@ == snapshot->0.selected_conversation_id@
        } else {
            r is None
        },
{
    match snapshot {
        Some(s) => if s.selected_conversation_id != s.root_conversation_id {
            Some(s.selected_conversation_id.clone())
        } else {
            None
        },
        None => None,
    }
}

/// How a ctrl-c on a command the agent is involved with is handled, as the
/// terminal-use policy decided it.
#[derive(Clone, Copy, Debug, PartialEq, Eq, Structural)]
pub enum TerminalUseInterruptAction {
    /// Take control from the agent; the conversation resumes later.
    TakeControl,
    /// Send an interrupt to the running command.
    InterruptCommand,
}

/// What the session reads when ctrl-c is pressed.
#[derive(Debug, PartialEq, Eq)]
pub struct InterruptContext {
    pub read_only_menu_open: bool,
    /// The agent is manually tagged into the running command.
    pub agent_tagged_in: bool,
    pub terminal_use_action: Option<TerminalUseInterruptAction>,
    pub tabs_focused: bool,
    /// The bar-focused kill target, if any.
    pub bar_kill_target: Option<String>,
    /// The child conversation being viewed without tab focus, if any.
    pub child_selected: Option<String>,
    /// Whether a second press now falls within the armed window.
    pub should_exit: bool,
    /// Whether a non-empty conversation of this surface is running.
    pub has_cancellable_conversation: bool,
}

/// What ctrl-c does.
#[derive(Debug, PartialEq, Eq)]
pub enum InterruptAction {
    /// An in-flight restore was cancelled (and its future is aborted when it had one).
    CancelRestore { abort_future: bool },
    /// Exit the TUI.
    TerminateApp,
    /// Give input back to the command the agent was tagged into.
    DetachFromRunningCommand,
    TakeControlOfRunningCommand,
    InterruptRunningCommand,
    /// Kill this child agent and its loaded subtree, and return to the root.
    KillChild(String),
    /// Arm the kill window for this child.
    ArmChildKill(String),
    /// Cancel the running conversation and arm the exit window.
    CancelConversation,
    /// Clear the input and arm the exit window.
    ClearInput,
}

/// The ctrl-c decision and its side effects on the exit window.
#[derive(Debug, PartialEq, Eq)]
pub struct InterruptDecision {
    pub action: InterruptAction,
    pub close_read_only_menu: bool,
    /// (Re-)arm the exit/kill confirmation window.
    pub arm_window: bool,
    /// Disarm the confirmation window.
    pub disarm_window: bool,
}

pub open spec fn opt_eq(a: Option<String>, b: Option<String>) -> bool {
    match (a, b) {
        (Some(x), Some(y)) => x@ == y@,
        (None, None) => true,
        _ => false,
    }
}

/// Handles a ctrl-c press, in priority order: cancel an in-flight restore;
/// exit after a failed startup restore; close an open read-only sheet, then
/// detach or take over a running command; kill the focused tab's agent;
/// while viewing a child, arm the kill window or kill on the second press
/// within it; otherwise exit on the second press within the window, or
/// cancel the running conversation (else clear the input) and arm it.
pub fn handle_interrupt(
    restore: &mut ConversationRestore,
    child_kill_armed: &mut Option<String>,
    cx: &InterruptContext,
) -> (r: InterruptDecision)
    ensures
        old(restore).state is Loading ==> {
            &&& r.action == InterruptAction::CancelRestore {
                abort_future: old(restore).state->has_future,
            }
            &&& final(restore).state == RestoreState::Idle
            &&& final(restore).next_request_id == wrapping_next(old(restore).next_request_id)
            &&& *final(child_kill_armed) == *old(child_kill_armed)
            &&& !r.close_read_only_menu && !r.arm_window && !r.disarm_window
        },
        !(old(restore).state is Loading) ==> *final(restore) == *old(restore),
        old(restore).state is Failed ==> r.action == InterruptAction::TerminateApp
            && *final(child_kill_armed) == *old(child_kill_armed) && !r.close_read_only_menu
            && !r.arm_window && !r.disarm_window,
        old(restore).state is Idle ==> {
            &&& r.close_read_only_menu == cx.read_only_menu_open
            &&& if cx.agent_tagged_in {
                r.action == InterruptAction::DetachFromRunningCommand && r.disarm_window
                    && *final(child_kill_armed) is None && !r.arm_window
            } else if cx.terminal_use_action is Some {
                &&& r.action == if cx.terminal_use_action->0
                    == TerminalUseInterruptAction::TakeControl {
                    InterruptAction::TakeControlOfRunningCommand
                } else {
                    InterruptAction::InterruptRunningCommand
                }
                &&& r.disarm_window && !r.arm_window && *final(child_kill_armed) is None
            } else if cx.tabs_focused && cx.bar_kill_target is Some {
                (r.action matches InterruptAction::KillChild(id) && id@ == cx.bar_kill_target->0@)
                    && r.disarm_window && !r.arm_window && *final(child_kill_armed) is None
            } else if !cx.tabs_focused && cx.child_selected is Some {
                if opt_eq(*old(child_kill_armed), cx.child_selected) && cx.should_exit {
                    (r.action matches InterruptAction::KillChild(id) && id@
                        == cx.child_selected->0@) && r.disarm_window && !r.arm_window
                        && *final(child_kill_armed) is None
                } else {
                    (r.action matches InterruptAction::ArmChildKill(id) && id@
                        == cx.child_selected->0@) && r.arm_window && !r.disarm_window
                        && opt_eq(*final(child_kill_armed), cx.child_selected)
                }
            } else {
                &&& *final(child_kill_armed) is None
                &&& if cx.should_exit {
                    r.action == InterruptAction::TerminateApp && !r.arm_window && !r.disarm_window
                } else {
                    &&& r.arm_window && !r.disarm_window
                    &&& r.action == if cx.has_cancellable_conversation {
                        InterruptAction::CancelConversation
                    } else {
                        InterruptAction::ClearInput
                    }
                }
            }
        },
        cx.child_selected is None && cx.bar_kill_target is None ==> !(r.action is KillChild)
            && !(r.action is ArmChildKill),
{
    if let Some(abort_future) = restore.cancel() {
        return InterruptDecision {
            action: InterruptAction::CancelRestore { abort_future },
            close_read_only_menu: false,
            arm_window: false,
            disarm_window: false,
        };
    }
    let failed = match &restore.state {
        RestoreState::Failed(_) => true,
        _ => false,
    };
    if failed {
        return InterruptDecision {
            action: InterruptAction::TerminateApp,
            close_read_only_menu: false,
            arm_window: false,
            disarm_window: false,
        };
    }
    let close_read_only_menu = cx.read_only_menu_open;
    let terminal_use = if cx.agent_tagged_in {
        Some(InterruptAction::DetachFromRunningCommand)
    } else {
        match cx.terminal_use_action {
            Some(TerminalUseInterruptAction::TakeControl) => Some(
                InterruptAction::TakeControlOfRunningCommand,
            ),
            Some(TerminalUseInterruptAction::InterruptCommand) => Some(
                InterruptAction::InterruptRunningCommand,
            ),
            None => None,
        }
    };
    if let Some(action) = terminal_use {
        *child_kill_armed = None;
        return InterruptDecision { action, close_read_only_menu, arm_window: false, disarm_window: true };
    }
    if cx.tabs_focused {
        if let Some(target) = &cx.bar_kill_target {
            *child_kill_armed = None;
            return InterruptDecision {
                action: InterruptAction::KillChild(target.clone()),
                close_read_only_menu,
                arm_window: false,
                disarm_window: true,
            };
        }
    }
    if !cx.tabs_focused {
        if let Some(child) = &cx.child_selected {
            let armed_for_child = match &*child_kill_armed {
                Some(armed) => *armed == *child,
                None => false,
            };
            if armed_for_child && cx.should_exit {
                *child_kill_armed = None;
                return InterruptDecision {
                    action: InterruptAction::KillChild(child.clone()),
                    close_read_only_menu,
                    arm_window: false,
                    disarm_window: true,
                };
            }
            *child_kill_armed = Some(child.clone());
            return InterruptDecision {
                action: InterruptAction::ArmChildKill(child.clone()),
                close_read_only_menu,
                arm_window: true,
                disarm_window: false,
            };
        }
    }
    *child_kill_armed = None;
    if cx.should_exit {
        return InterruptDecision {
            action: InterruptAction::TerminateApp,
            close_read_only_menu,
            arm_window: false,
            disarm_window: false,
        };
    }
    let action = if cx.has_cancellable_conversation {
        InterruptAction::CancelConversation
    } else {
        InterruptAction::ClearInput
    };
    InterruptDecision { action, close_read_only_menu, arm_window: true, disarm_window: false }
}

/// The composer's content changed: typing into it (leaving it non-empty)
/// disarms the exit confirmation and any child-kill window; an edit that
/// leaves it empty, such as ctrl-c's own clear, keeps the window it armed.
/// Returns whether the exit confirmation is disarmed.
pub fn on_input_changed(child_kill_armed: &mut Option<String>, input_is_empty: bool) -> (disarm_exit: bool)
    ensures
        disarm_exit == !input_is_empty,
        !input_is_empty ==> *final(child_kill_armed) is None,
        input_is_empty ==> *final(child_kill_armed) == *old(child_kill_armed),
{
    if !input_is_empty {
        *child_kill_armed = None;
    }
    !input_is_empty
}

/// After the tab bar was refreshed: when no tabs remain, tab focus is given
/// up (and the focus owner resolved again) and an armed child-kill window is
/// disarmed. Returns whether anything visible changed.
pub fn on_tab_availability(
    tabs_were_available: bool,
    tabs_are_available: bool,
    tabs_focused: &mut bool,
    child_kill_armed: &mut Option<String>,
) -> (r: (bool, bool, bool))
    ensures
        r.0 == (!tabs_are_available && *old(tabs_focused)),
        r.1 == (!tabs_are_available && *old(child_kill_armed) is Some),
        r.2 == (tabs_were_available != tabs_are_available || r.0 || r.1),
        *final(tabs_focused) == (*old(tabs_focused) && tabs_are_available),
        tabs_are_available ==> *final(child_kill_armed) == *old(child_kill_armed),
        !tabs_are_available ==> *final(child_kill_armed) is None,
{
    let mut refocus = false;
    let mut disarm = false;
    if !tabs_are_available && *tabs_focused {
        *tabs_focused = false;
        refocus = true;
    }
    if !tabs_are_available && child_kill_armed.is_some() {
        *child_kill_armed = None;
        disarm = true;
    }
    (refocus, disarm, tabs_were_available != tabs_are_available || refocus || disarm)
}

} // verus!
