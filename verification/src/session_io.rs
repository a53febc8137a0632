//! The session's PTY-facing events and how submissions reach the shell or
//! the agent.
use vstd::prelude::*;
use vstd::string::*;
use crate::text::{is_blank, str_is_blank, owned};
use crate::hints::COMMAND_ALREADY_RUNNING_HINT;

verus! {

/// Dimensions of the terminal grid, in cells.
#[derive(Clone, Copy, Debug, PartialEq, Eq)]
pub struct TerminalSize {
    pub rows: usize,
    pub columns: usize,
}

/// A change of the terminal grid from `old` to `new`.
#[derive(Clone, Copy, Debug, PartialEq, Eq)]
pub struct SizeUpdate {
    pub old: TerminalSize,
    pub new: TerminalSize,
}

impl SizeUpdate {
    /// The update from `last` to a grid of `rows` by `columns`.
    pub fn from_cell_dimensions(last: TerminalSize, rows: usize, columns: usize) -> (r: Self)
        ensures
            r.old == last,
            r.new == (TerminalSize { rows, columns }),
    {
        SizeUpdate { old: last, new: TerminalSize { rows, columns } }
    }

    /// Whether the grid's rows or columns differ.
    pub fn rows_or_columns_changed(&self) -> (r: bool)
        ensures
            r == (self.old.rows != self.new.rows || self.old.columns != self.new.columns),
    {
        self.old.rows != self.new.rows || self.old.columns != self.new.columns
    }
}

/// A laid-out content area of `width` by `height` cells resizes the PTY
/// when it is non-empty and its rows or columns changed; the applied size
/// becomes the new last size.
pub fn handle_terminal_resize(last: &mut TerminalSize, width: u16, height: u16) -> (r: Option<
    SizeUpdate,
>)
    ensures
        (width == 0 || height == 0 || (old(last).rows == height as usize && old(last).columns
            == width as usize)) ==> r is None && *final(last) == *old(last),
        !(width == 0 || height == 0 || (old(last).rows == height as usize && old(last).columns
            == width as usize)) ==> r == Some(
            SizeUpdate {
                old: *old(last),
                new: TerminalSize { rows: height as usize, columns: width as usize },
            },
        ) && *final(last) == (TerminalSize { rows: height as usize, columns: width as usize }),
{
    if width == 0 || height == 0 {
        return None;
    }
    let update = SizeUpdate::from_cell_dimensions(*last, height as usize, width as usize);
    if !update.rows_or_columns_changed() {
        return None;
    }
    *last = update.new;
    Some(update)
}

/// How the agent's bytes are written to the PTY.
#[derive(Clone, Copy, Debug, PartialEq, Eq, Structural)]
pub enum AgentPtyWriteMode {
    Raw,
    Paste,
}

/// Linked workflow metadata of a command recalled from history.
#[derive(Debug, PartialEq, Eq)]
pub enum LinkedWorkflowData {
    Id(String),
    Command(String),
}

/// Who asked for a command to run.
#[derive(Debug, PartialEq, Eq)]
pub enum CommandExecutionSource {
    User,
    /// The agent, for this action of this conversation (hidden from the top level).
    Agent { action_id: String, conversation_id: String },
}

/// A command to execute in the session's PTY.
#[derive(Debug, PartialEq, Eq)]
pub struct ExecuteCommandEvent {
    pub command: String,
    pub session_id: u64,
    pub workflow_id: Option<String>,
    pub workflow_command: Option<String>,
    pub should_add_command_to_history: bool,
    pub source: CommandExecutionSource,
}

/// Events emitted by the terminal session surface.
#[derive(Debug, PartialEq, Eq)]
pub enum TerminalSessionEvent {
    ExecuteCommand(ExecuteCommandEvent),
    InterruptPty,
    WriteAgentInput { bytes: Vec<u8>, mode: AgentPtyWriteMode },
    WriteUserInput(Vec<u8>),
    Resize(SizeUpdate),
}

/// What the terminal manager does with the PTY.
#[derive(Debug, PartialEq, Eq)]
pub enum PtyIntent {
    ExecuteCommand(ExecuteCommandEvent),
    Interrupt,
    WriteAgentInput { bytes: Vec<u8>, mode: AgentPtyWriteMode },
    WriteBytes(Vec<u8>),
    Resize(SizeUpdate),
}

impl TerminalSessionEvent {
    /// Every session event projects to its PTY intent with the same payload.
    pub fn pty_intent(self) -> (r: Option<PtyIntent>)
        ensures
            r == Some(
                match self {
                    TerminalSessionEvent::ExecuteCommand(e) => PtyIntent::ExecuteCommand(e),
                    TerminalSessionEvent::InterruptPty => PtyIntent::Interrupt,
                    TerminalSessionEvent::WriteAgentInput { bytes, mode } => {
                        PtyIntent::WriteAgentInput { bytes, mode }
                    },
                    TerminalSessionEvent::WriteUserInput(bytes) => PtyIntent::WriteBytes(bytes),
                    TerminalSessionEvent::Resize(u) => PtyIntent::Resize(u),
                },
            ),
    {
        match self {
            TerminalSessionEvent::ExecuteCommand(e) => Some(PtyIntent::ExecuteCommand(e)),
            TerminalSessionEvent::InterruptPty => Some(PtyIntent::Interrupt),
            TerminalSessionEvent::WriteAgentInput { bytes, mode } => Some(
                PtyIntent::WriteAgentInput { bytes, mode },
            ),
            TerminalSessionEvent::WriteUserInput(bytes) => Some(PtyIntent::WriteBytes(bytes)),
            TerminalSessionEvent::Resize(u) => Some(PtyIntent::Resize(u)),
        }
    }
}

/// Raw user bytes reach the PTY only while the composer does not own input
/// (the agent is neither in control of nor tagged into the running command):
/// bytes typed before a takeover are dropped.
pub fn forward_user_pty_bytes(bytes: &[u8], composer_owns_input: bool) -> (r: Option<
    TerminalSessionEvent,
>)
    ensures
        composer_owns_input ==> r is None,
        !composer_owns_input ==> (r matches Some(TerminalSessionEvent::WriteUserInput(b)) && b@
            == bytes@),
{
    if composer_owns_input {
        return None;
    }
    Some(TerminalSessionEvent::WriteUserInput(vstd::slice::slice_to_vec(bytes)))
}

/// Types a prepared child-agent harness command into the PTY and presses
/// Enter: the command's bytes, then a carriage return.
pub fn write_child_harness_command(command: &str) -> (r: Vec<TerminalSessionEvent>)
    ensures
        r@.len() == 2,
        r@[0] matches TerminalSessionEvent::WriteUserInput(b) && b@ == command.spec_bytes(),
        r@[1] matches TerminalSessionEvent::WriteUserInput(b) && b@ == seq![13u8],
{
    let first = TerminalSessionEvent::WriteUserInput(vstd::slice::slice_to_vec(command.as_bytes()));
    let second = TerminalSessionEvent::WriteUserInput(vec![13u8]);
    vec![first, second]
}

/// Who receives the user's keystrokes.
#[derive(Clone, Copy, Debug, PartialEq, Eq, Structural)]
pub enum InputTarget {
    /// The shell is still bootstrapping: nothing accepts input.
    Disabled,
    /// The composer.
    AgentEditor,
    /// A foreground process in the PTY.
    Pty,
}

/// Where a submitted line goes.
#[derive(Debug, PartialEq, Eq)]
pub enum SubmitRoute {
    /// Dropped: a stale frame, or a restore in progress.
    Ignore,
    /// Sent to the agent driving the running command (the composer then locks to the agent).
    TerminalUsePrompt,
    /// Executed in the PTY.
    ShellCommand,
    /// Parsed for slash and skill commands, else sent as a prompt.
    AgentInput,
}

/// Routes a submission: only while the composer owns input and no restore is
/// underway; a non-blank line goes to an agent controlling the running
/// command first, then shell mode executes it, and otherwise it is agent input.
pub fn route_submission(
    text: &str,
    input_target: InputTarget,
    restore_idle: bool,
    agent_controls_running_command: bool,
    shell_mode: bool,
) -> (r: SubmitRoute)
    ensures
        input_target != InputTarget::AgentEditor || !restore_idle ==> r == SubmitRoute::Ignore,
        input_target == InputTarget::AgentEditor && restore_idle ==> r == if !is_blank(text@)
            && agent_controls_running_command {
            SubmitRoute::TerminalUsePrompt
        } else if shell_mode {
            SubmitRoute::ShellCommand
        } else {
            SubmitRoute::AgentInput
        },
{
    if input_target != InputTarget::AgentEditor || !restore_idle {
        return SubmitRoute::Ignore;
    }
    if !str_is_blank(text) && agent_controls_running_command {
        SubmitRoute::TerminalUsePrompt
    } else if shell_mode {
        SubmitRoute::ShellCommand
    } else {
        SubmitRoute::AgentInput
    }
}

/// What the PTY's active block reports.
#[derive(Clone, Copy, Debug, PartialEq, Eq)]
pub struct ActiveBlockState {
    pub bootstrapped: bool,
    pub active_and_long_running: bool,
    pub in_band_command_block: bool,
    pub session_id: Option<u64>,
}

/// The PTY cannot take a user command while the shell is bootstrapping or a
/// long-running (non-in-band) command holds it.
pub open spec fn pty_busy(b: ActiveBlockState) -> bool {
    !b.bootstrapped || (b.active_and_long_running && !b.in_band_command_block)
}

/// The outcome of submitting a shell command.
#[derive(Debug, PartialEq, Eq)]
pub enum UserCommandOutcome {
    /// A blank command: nothing happens and shell mode stays.
    Blank,
    /// No session to run it in.
    NoSession,
    /// The PTY is busy: the input keeps its text and this hint shows.
    Rejected(&'static str),
    /// Execute the command (cancelling the selected conversation's turn when
    /// it is in progress); the input then clears.
    Execute { event: ExecuteCommandEvent, cancel_selected_conversation: bool },
}

/// Plans a shell-mode submission. The command runs exactly as typed, with
/// the workflow metadata recalled from history (taken, so it is used once).
pub fn plan_user_command(
    command: &str,
    block: ActiveBlockState,
    selected_conversation_in_progress: bool,
    pending_workflow: &mut Option<LinkedWorkflowData>,
) -> (r: UserCommandOutcome)
    ensures
        is_blank(command@) ==> r == UserCommandOutcome::Blank && *final(pending_workflow)
            == *old(pending_workflow),
        !is_blank(command@) && block.session_id is None ==> r == UserCommandOutcome::NoSession
            && *final(pending_workflow) == *old(pending_workflow),
        !is_blank(command@) && block.session_id is Some && pty_busy(block) ==> r
            == UserCommandOutcome::Rejected(COMMAND_ALREADY_RUNNING_HINT) && *final(pending_workflow)
            == *old(pending_workflow),
        !is_blank(command@) && block.session_id is Some && !pty_busy(block) ==> {
            &&& *final(pending_workflow) is None
            &&& r matches UserCommandOutcome::Execute { event, cancel_selected_conversation } && {
                &&& event.command@ == command@
                &&& event.session_id == block.session_id->0
                &&& event.should_add_command_to_history
                &&& event.source == CommandExecutionSource::User
                &&& cancel_selected_conversation == selected_conversation_in_progress
                &&& match *old(pending_workflow) {
                    Some(LinkedWorkflowData::Id(id)) => event.workflow_id == Some(id)
                        && event.workflow_command is None,
                    Some(LinkedWorkflowData::Command(c)) => event.workflow_id is None
                        && event.workflow_command == Some(c),
                    None => event.workflow_id is None && event.workflow_command is None,
                }
            }
        },
{
    if str_is_blank(command) {
        return UserCommandOutcome::Blank;
    }
    let session_id = match block.session_id {
        Some(id) => id,
        None => return UserCommandOutcome::NoSession,
    };
    if !block.bootstrapped || (block.active_and_long_running && !block.in_band_command_block) {
        return UserCommandOutcome::Rejected(COMMAND_ALREADY_RUNNING_HINT);
    }
    let (workflow_id, workflow_command) = match pending_workflow.take() {
        Some(LinkedWorkflowData::Id(id)) => (Some(id), None),
        Some(LinkedWorkflowData::Command(c)) => (None, Some(c)),
        None => (None, None),
    };
    UserCommandOutcome::Execute {
        event: ExecuteCommandEvent {
            command: owned(command),
            session_id,
            workflow_id,
            workflow_command,
            should_add_command_to_history: true,
            source: CommandExecutionSource::User,
        },
        cancel_selected_conversation: selected_conversation_in_progress,
    }
}

/// The command the agent asked for, hidden from the top level and run in
/// the active session; `None` (nothing runs) without a session or without a
/// conversation owning the action.
pub fn plan_agent_command(
    action_id: &str,
    command: &str,
    session_id: Option<u64>,
    conversation_id: Option<&str>,
) -> (r: Option<ExecuteCommandEvent>)
    ensures
        session_id is None || conversation_id is None ==> r is None,
        session_id is Some && conversation_id is Some ==> (r matches Some(e) && {
            &&& e.command@ == command@
            &&& e.session_id == session_id->0
            &&& e.workflow_id is None && e.workflow_command is None
            &&& e.should_add_command_to_history
            &&& (e.source matches CommandExecutionSource::Agent { action_id: a, conversation_id: c }
                && a@ == action_id@ && c@ == conversation_id->0@)
        }),
{
    let session_id = match session_id {
        Some(s) => s,
        None => return None,
    };
    let conversation_id = match conversation_id {
        Some(c) => c,
        None => return None,
    };
    Some(
        ExecuteCommandEvent {
            command: owned(command),
            session_id,
            workflow_id: None,
            workflow_command: None,
            should_add_command_to_history: true,
            source: CommandExecutionSource::Agent {
                action_id: owned(action_id),
                conversation_id: owned(conversation_id),
            },
        },
    )
}

} // verus!
