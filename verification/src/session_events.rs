//! How the session reacts to conversation-history events, and which file
//! edits a rewind reverts.
use vstd::prelude::*;
use vstd::string::*;
use crate::text::owned;
use crate::follow_up::{QueuedFollowUp, follows, forget_conversation};
use crate::statusline::opt_view;

verus! {

/// The conversation-history events the session distinguishes.
#[derive(Clone, Copy, Debug, PartialEq, Eq, Structural)]
pub enum HistoryEventKind {
    AppendedExchange,
    UpdatedStreamingExchange,
    UpdatedConversationStatus,
    UpdatedTodoList,
    UpdatedAutoexecuteOverride,
    RestoredConversations,
    RemoveConversation,
    DeletedConversation,
    ClearedConversationsInTerminalView,
    /// Any other event.
    Other,
}

/// A conversation-history event: its kind, the surface it concerns (if it
/// names one), and the conversation it concerns (if it names one).
#[derive(Debug, PartialEq, Eq)]
pub struct HistoryEvent {
    pub kind: HistoryEventKind,
    pub terminal_view_id: Option<u64>,
    pub conversation_id: Option<String>,
}

/// What the session does on a history event.
#[derive(Debug, PartialEq, Eq)]
pub struct HistoryEffects {
    /// Repaint.
    pub notify: bool,
    /// Re-anchor an open TODO menu.
    pub sync_todo_menu: bool,
    pub refresh_exit_summary: bool,
    /// Drive the held follow-up with this conversation's new status.
    pub check_follow_up: Option<String>,
    /// Forget the recorded file edits and subagent views of this conversation.
    pub forget_conversation: Option<String>,
    pub clear_subagent_views: bool,
}

/// Whether the event concerns this surface: events that name another surface
/// are not this surface's.
pub open spec fn concerns_surface(event: HistoryEvent, surface_id: u64) -> bool {
    match event.terminal_view_id {
        Some(id) => id == surface_id,
        None => true,
    }
}

pub open spec fn repaints(kind: HistoryEventKind) -> bool {
    kind == HistoryEventKind::AppendedExchange || kind == HistoryEventKind::UpdatedStreamingExchange
        || kind == HistoryEventKind::UpdatedConversationStatus || kind
        == HistoryEventKind::UpdatedTodoList || kind == HistoryEventKind::UpdatedAutoexecuteOverride
}

pub open spec fn removes(kind: HistoryEventKind) -> bool {
    kind == HistoryEventKind::RemoveConversation || kind == HistoryEventKind::DeletedConversation
}

pub open spec fn no_effects(r: HistoryEffects) -> bool {
    &&& !r.notify && !r.sync_todo_menu && !r.refresh_exit_summary && !r.clear_subagent_views
    &&& r.check_follow_up is None && r.forget_conversation is None
}

/// The session's reaction to a history event. An event of another surface
/// changes nothing; a removed or deleted conversation also drops the
/// follow-up held for it.
pub fn history_event_effects(
    queued: &mut Option<QueuedFollowUp>,
    event: &HistoryEvent,
    surface_id: u64,
) -> (r: HistoryEffects)
    ensures
        !concerns_surface(*event, surface_id) ==> no_effects(r) && *final(queued) == *old(queued),
        concerns_surface(*event, surface_id) ==> {
            &&& r.notify == repaints(event.kind)
            &&& r.sync_todo_menu == (event.kind == HistoryEventKind::UpdatedTodoList)
            &&& r.refresh_exit_summary == (event.kind == HistoryEventKind::RestoredConversations)
            &&& r.clear_subagent_views == (event.kind
                == HistoryEventKind::ClearedConversationsInTerminalView)
            &&& opt_view(r.check_follow_up) == if event.kind
                == HistoryEventKind::UpdatedConversationStatus {
                opt_view(event.conversation_id)
            } else {
                None
            }
            &&& opt_view(r.forget_conversation) == if removes(event.kind) {
                opt_view(event.conversation_id)
            } else {
                None
            }
            &&& if removes(event.kind) && event.conversation_id is Some && follows(
                *old(queued),
                event.conversation_id->0@,
            ) {
                *final(queued) is None
            } else {
                *final(queued) == *old(queued)
            }
        },
{
    let concerns = match event.terminal_view_id {
        Some(id) => id == surface_id,
        None => true,
    };
    if !concerns {
        return HistoryEffects {
            notify: false,
            sync_todo_menu: false,
            refresh_exit_summary: false,
            check_follow_up: None,
            forget_conversation: None,
            clear_subagent_views: false,
        };
    }
    let kind = event.kind;
    let notify = kind == HistoryEventKind::AppendedExchange || kind
        == HistoryEventKind::UpdatedStreamingExchange || kind
        == HistoryEventKind::UpdatedConversationStatus || kind == HistoryEventKind::UpdatedTodoList
        || kind == HistoryEventKind::UpdatedAutoexecuteOverride;
    let id: Option<String> = match &event.conversation_id {
        Some(c) => Some(owned(c.as_str())),
        None => None,
    };
    let mut check_follow_up: Option<String> = None;
    let mut forget: Option<String> = None;
    if kind == HistoryEventKind::UpdatedConversationStatus {
        check_follow_up = id;
    } else if kind == HistoryEventKind::RemoveConversation || kind
        == HistoryEventKind::DeletedConversation {
        if let Some(c) = &event.conversation_id {
            forget_conversation(queued, c.as_str());
        }
        forget = id;
    }
    HistoryEffects {
        notify,
        sync_todo_menu: kind == HistoryEventKind::UpdatedTodoList,
        refresh_exit_summary: kind == HistoryEventKind::RestoredConversations,
        check_follow_up,
        forget_conversation: forget,
        clear_subagent_views: kind == HistoryEventKind::ClearedConversationsInTerminalView,
    }
}

/// A file-edit action recorded before a rewind, in chronological order.
#[derive(Debug, PartialEq, Eq)]
pub struct RevertCandidate {
    pub action_id: String,
    pub exchange_id: String,
    /// Whether this session recorded the edit's pre-edit contents.
    pub registered: bool,
    /// Whether the edit was applied successfully.
    pub succeeded: bool,
}

/// Whether `ids` holds `id`.
pub open spec fn holds_id(ids: Seq<String>, id: Seq<char>) -> bool {
    exists|i: int| 0 <= i < ids.len() && (#[trigger] ids[i])@ == id
}

/// Whether the rewind reverts this edit: this session recorded it, it
/// succeeded, and its exchange was removed.
pub open spec fn reverted(c: RevertCandidate, removed: Seq<String>) -> bool {
    c.registered && c.succeeded && holds_id(removed, c.exchange_id@)
}

/// The action ids of the reverted edits, newest first.
pub open spec fn revert_order(candidates: Seq<RevertCandidate>, removed: Seq<String>) -> Seq<Seq<char>>
    decreases candidates.len(),
{
    if candidates.len() == 0 {
        Seq::empty()
    } else {
        let rest = revert_order(candidates.drop_last(), removed);
        if reverted(candidates.last(), removed) {
            seq![candidates.last().action_id@] + rest
        } else {
            rest
        }
    }
}

pub open spec fn id_views(ids: Seq<String>) -> Seq<Seq<char>> {
    ids.map_values(|s: String| s@)
}

fn holds(ids: &Vec<String>, id: &str) -> (r: bool)
    ensures
        r == holds_id(ids@, id@),
{
    let target: String = owned(id);
    let mut i: usize = 0;
    while i < ids.len()
        invariant
            i <= ids@.len(),
            target@ == id@,
            forall|j: int| 0 <= j < i ==> (#[trigger] ids@[j])@ != id@,
        decreases ids.len() - i,
    {
        if ids[i] == target {
            return true;
        }
        i = i + 1;
    }
    false
}

/// The edits a rewind reverts, newest first, so that repeated edits of one
/// file unwind back to its original contents.
pub fn actions_to_revert(candidates: &Vec<RevertCandidate>, removed_exchange_ids: &Vec<String>) -> (r: Vec<String>)
    ensures
        id_views(r@) == revert_order(candidates@, removed_exchange_ids@),
{
    let mut out: Vec<String> = Vec::new();
    let mut i: usize = 0;
    while i < candidates.len()
        invariant
            i <= candidates@.len(),
            id_views(out@) == revert_order(candidates@.subrange(0, i as int), removed_exchange_ids@),
        decreases candidates.len() - i,
    {
        let c = &candidates[i];
        let ghost before = candidates@.subrange(0, i as int);
        let ghost after = candidates@.subrange(0, i + 1);
        proof {
            assert(after.drop_last() =~= before);
            assert(after.last() == candidates@[i as int]);
        }
        if c.registered && c.succeeded && holds(removed_exchange_ids, c.exchange_id.as_str()) {
            let ghost old_out = out@;
            out.insert(0, owned(c.action_id.as_str()));
            proof {
                assert(id_views(out@) =~= seq![c.action_id@] + id_views(old_out));
            }
        }
        i = i + 1;
    }
    assert(candidates@.subrange(0, candidates@.len() as int) =~= candidates@);
    out
}

} // verus!
