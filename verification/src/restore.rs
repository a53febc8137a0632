//! Conversation restore: a single in-flight load at a time, identified by a
//! request id so that late or cancelled loads are never applied.
use vstd::prelude::*;
use vstd::string::*;
use crate::hints::{RESTORE_LOAD_FAILED_MESSAGE, RESTORE_MISMATCH_MESSAGE, RESTORE_UNSUPPORTED_CONVERSATION_MESSAGE};
use crate::text::owned;

verus! {

/// Entry point that requested conversation restoration.
#[derive(Clone, Copy, Debug, PartialEq, Eq, Structural)]
pub enum RestoreOrigin {
    Startup,
    ConversationList,
    /// Switching the surface to a newly forked conversation.
    Fork,
}

/// How the conversation selection records a surface switch.
#[derive(Clone, Copy, Debug, PartialEq, Eq, Structural)]
pub enum AgentViewEntryOrigin {
    RestoreExistingConversation,
    Tui,
}

/// Every restore origin selects an existing conversation.
pub fn agent_view_origin(origin: RestoreOrigin) -> (r: AgentViewEntryOrigin)
    ensures
        r == AgentViewEntryOrigin::RestoreExistingConversation,
{
    match origin {
        RestoreOrigin::Startup | RestoreOrigin::ConversationList | RestoreOrigin::Fork => {
            AgentViewEntryOrigin::RestoreExistingConversation
        },
    }
}

/// Where the conversation to restore lives.
#[derive(Debug, PartialEq, Eq)]
pub enum RestoreTarget {
    Local(String),
    Server(String),
}

/// What a finished load produced.
#[derive(Debug, PartialEq, Eq)]
pub enum LoadedConversation {
    /// An agent conversation with its local id and optional server token.
    Agent { id: String, server_token: Option<String> },
    /// A third-party CLI agent conversation, which this surface cannot show.
    CliAgent,
}

/// The restore lifecycle.
#[derive(Debug, PartialEq, Eq)]
pub enum RestoreState {
    Idle,
    Loading { origin: RestoreOrigin, request_id: u64, has_future: bool },
    Failed(String),
}

/// The restore state with its request-id counter.
#[derive(Debug, PartialEq, Eq)]
pub struct ConversationRestore {
    pub state: RestoreState,
    pub next_request_id: u64,
}

pub open spec fn wrapping_next(id: u64) -> u64 {
    if id == u64::MAX { 0 } else { (id + 1) as u64 }
}

pub open spec fn loading_request(state: RestoreState) -> Option<u64> {
    match state {
        RestoreState::Loading { request_id, .. } => Some(request_id),
        _ => None,
    }
}

/// The restore after `start(origin)`, and the request id it issued: a load
/// in flight is left alone; otherwise the counter moves on and the new load
/// carries its value.
pub open spec fn after_start(r: ConversationRestore, origin: RestoreOrigin) -> (ConversationRestore, Option<u64>) {
    if r.state is Loading {
        (r, None)
    } else {
        let id = wrapping_next(r.next_request_id);
        (
            ConversationRestore {
                state: RestoreState::Loading { origin, request_id: id, has_future: false },
                next_request_id: id,
            },
            Some(id),
        )
    }
}

/// The restore after `cancel()`: an in-flight load is dropped and the
/// counter moves on; otherwise nothing changes.
pub open spec fn after_cancel(r: ConversationRestore) -> ConversationRestore {
    if r.state is Loading {
        ConversationRestore { state: RestoreState::Idle, next_request_id: wrapping_next(r.next_request_id) }
    } else {
        r
    }
}

/// What to do after a load failed.
#[derive(Debug, PartialEq, Eq)]
pub enum RestoreFailure {
    /// The failure belongs to a request that is no longer current.
    Ignored,
    /// A startup restore failed: the surface now shows the failure.
    ShownAsScreen,
    /// A switch failed: back to idle, show the message as a transient hint.
    ShowHint(String),
}

/// What to do with a finished load.
#[derive(Debug, PartialEq, Eq)]
pub enum RestoreResultAction {
    /// The load is stale: ignore it.
    Ignore,
    /// The load failed with this message (applied through `fail`).
    Fail(String),
    /// Replace the surface with the loaded conversation.
    Replace,
}

/// What the session surface shows instead of the normal layout.
#[derive(Clone, Copy, Debug, PartialEq, Eq, Structural)]
pub enum RestoreScreen {
    /// The normal layout.
    Normal,
    /// The full-screen restoring indicator of a startup restore.
    Restoring,
    /// The full-screen failure of a startup restore.
    Failed,
}

impl ConversationRestore {
    /// A load in flight carries the last request id issued.
    pub open spec fn wf(self) -> bool {
        self.state matches RestoreState::Loading { request_id, .. } ==> request_id
            == self.next_request_id
    }

    /// Idle, with no request issued yet.
    pub fn new() -> (r: Self)
        ensures
            r.wf(),
            r.state == RestoreState::Idle,
            r.next_request_id == 0,
    {
        ConversationRestore { state: RestoreState::Idle, next_request_id: 0 }
    }

    /// Whether a load is in flight.
    pub fn is_loading(&self) -> (r: bool)
        ensures
            r == (self.state is Loading),
    {
        match &self.state {
            RestoreState::Loading { .. } => true,
            _ => false,
        }
    }

    /// Whether `request_id` is the load in flight.
    pub fn is_current_request(&self, request_id: u64) -> (r: bool)
        ensures
            r == (loading_request(self.state) == Some(request_id)),
    {
        match &self.state {
            RestoreState::Loading { request_id: active, .. } => *active == request_id,
            _ => false,
        }
    }

    /// Whether the footer shows the loading hint: a switch from the
    /// conversation list is loading.
    pub fn is_loading_from_conversation_list(&self) -> (r: bool)
        ensures
            r == (self.state matches RestoreState::Loading { origin, .. } && origin
                == RestoreOrigin::ConversationList),
    {
        match &self.state {
            RestoreState::Loading { origin: RestoreOrigin::ConversationList, .. } => true,
            _ => false,
        }
    }

    /// Starts a load unless one is already in flight; returns its request id.
    pub fn start(&mut self, origin: RestoreOrigin) -> (r: Option<u64>)
        ensures
            (*final(self), r) == after_start(*old(self), origin),
    {
        if self.is_loading() {
            return None;
        }
        self.next_request_id = self.next_request_id.wrapping_add(1);
        let request_id = self.next_request_id;
        self.state = RestoreState::Loading { origin, request_id, has_future: false };
        Some(request_id)
    }

    /// Records that the load for `request_id` is running. Returns `false`
    /// when that request is no longer current, and the caller aborts it.
    pub fn attach_future(&mut self, request_id: u64) -> (kept: bool)
        ensures
            kept == (loading_request(old(self).state) == Some(request_id)),
            final(self).next_request_id == old(self).next_request_id,
            kept ==> final(self).state == (RestoreState::Loading {
                origin: old(self).state->origin,
                request_id,
                has_future: true,
            }),
            !kept ==> final(self).state == old(self).state,
    {
        if !self.is_current_request(request_id) {
            return false;
        }
        let origin = match &self.state {
            RestoreState::Loading { origin, .. } => *origin,
            _ => RestoreOrigin::Startup,
        };
        self.state = RestoreState::Loading { origin, request_id, has_future: true };
        true
    }

    /// Cancels an in-flight load: back to idle, and the counter moves on so
    /// the cancelled request can never be current again. Returns whether the
    /// load had a running future to abort, or `None` when nothing was loading.
    pub fn cancel(&mut self) -> (r: Option<bool>)
        ensures
            *final(self) == after_cancel(*old(self)),
            !(old(self).state is Loading) ==> r is None,
            old(self).state matches RestoreState::Loading { has_future, .. } ==> r == Some(has_future),
    {
        if !self.is_loading() {
            return None;
        }
        let had_future = match &self.state {
            RestoreState::Loading { has_future, .. } => *has_future,
            _ => false,
        };
        self.state = RestoreState::Idle;
        self.next_request_id = self.next_request_id.wrapping_add(1);
        Some(had_future)
    }

    /// A load failed: a stale request changes nothing; a startup restore
    /// moves to `Failed`; a switch returns to idle and the message becomes a
    /// transient hint.
    pub fn fail(&mut self, request_id: u64, message: String) -> (r: RestoreFailure)
        ensures
            final(self).next_request_id == old(self).next_request_id,
            loading_request(old(self).state) != Some(request_id) ==> r == RestoreFailure::Ignored
                && final(self).state == old(self).state,
            loading_request(old(self).state) == Some(request_id) ==> if old(self).state->origin
                == RestoreOrigin::Startup {
                r == RestoreFailure::ShownAsScreen && final(self).state == RestoreState::Failed(
                    message,
                )
            } else {
                r == RestoreFailure::ShowHint(message) && final(self).state == RestoreState::Idle
            },
    {
        if !self.is_current_request(request_id) {
            return RestoreFailure::Ignored;
        }
        let origin = match &self.state {
            RestoreState::Loading { origin, .. } => *origin,
            _ => RestoreOrigin::Startup,
        };
        match origin {
            RestoreOrigin::Startup => {
                self.state = RestoreState::Failed(message);
                RestoreFailure::ShownAsScreen
            },
            RestoreOrigin::ConversationList | RestoreOrigin::Fork => {
                self.state = RestoreState::Idle;
                RestoreFailure::ShowHint(message)
            },
        }
    }

    /// The surface was replaced with the restored conversation.
    pub fn complete(&mut self)
        ensures
            final(self).state == RestoreState::Idle,
            final(self).next_request_id == old(self).next_request_id,
    {
        self.state = RestoreState::Idle;
    }

    /// What the surface shows: a startup load or failure takes the whole
    /// surface; switches keep the normal layout.
    pub fn screen(&self) -> (r: RestoreScreen)
        ensures
            r == match self.state {
                RestoreState::Loading { origin, .. } => if origin == RestoreOrigin::Startup {
                    RestoreScreen::Restoring
                } else {
                    RestoreScreen::Normal
                },
                RestoreState::Failed(_) => RestoreScreen::Failed,
                RestoreState::Idle => RestoreScreen::Normal,
            },
    {
        match &self.state {
            RestoreState::Loading { origin: RestoreOrigin::Startup, .. } => RestoreScreen::Restoring,
            RestoreState::Loading { .. } => RestoreScreen::Normal,
            RestoreState::Failed(_) => RestoreScreen::Failed,
            RestoreState::Idle => RestoreScreen::Normal,
        }
    }
}

/// Whether the loaded conversation is the one requested.
pub open spec fn matches_target(target: RestoreTarget, id: Seq<char>, server_token: Option<Seq<char>>) -> bool {
    match target {
        RestoreTarget::Local(requested) => id == requested@,
        RestoreTarget::Server(token) => server_token == Some(token@),
    }
}

/// Validates a finished load before the surface is replaced: stale loads are
/// ignored; a missing load, a CLI-agent conversation, or a conversation other
/// than the requested one fails with its message.
pub fn restore_result_action(
    restore: &ConversationRestore,
    request_id: u64,
    target: &RestoreTarget,
    result: &Option<LoadedConversation>,
) -> (r: RestoreResultAction)
    ensures
        loading_request(restore.state) != Some(request_id) ==> r == RestoreResultAction::Ignore,
        loading_request(restore.state) == Some(request_id) ==> match *result {
            None => r matches RestoreResultAction::Fail(m) && m@ == RESTORE_LOAD_FAILED_MESSAGE@,
            Some(LoadedConversation::CliAgent) => r matches RestoreResultAction::Fail(m) && m@
                == RESTORE_UNSUPPORTED_CONVERSATION_MESSAGE@,
            Some(LoadedConversation::Agent { id, server_token }) => if matches_target(
                *target,
                id@,
                match server_token {
                    Some(t) => Some(t@),
                    None => None,
                },
            ) {
                r == RestoreResultAction::Replace
            } else {
                r matches RestoreResultAction::Fail(m) && m@ == RESTORE_MISMATCH_MESSAGE@
            },
        },
{
    if !restore.is_current_request(request_id) {
        return RestoreResultAction::Ignore;
    }
    match result {
        None => RestoreResultAction::Fail(owned(RESTORE_LOAD_FAILED_MESSAGE)),
        Some(LoadedConversation::CliAgent) => RestoreResultAction::Fail(
            owned(RESTORE_UNSUPPORTED_CONVERSATION_MESSAGE),
        ),
        Some(LoadedConversation::Agent { id, server_token }) => {
            let matches = match target {
                RestoreTarget::Local(requested) => *id == *requested,
                RestoreTarget::Server(token) => match server_token {
                    Some(t) => *t == *token,
                    None => false,
                },
            };
            if matches {
                RestoreResultAction::Replace
            } else {
                RestoreResultAction::Fail(owned(RESTORE_MISMATCH_MESSAGE))
            }
        },
    }
}

} // verus!
