//! Prompt arguments of slash commands, and the follow-up prompt held by
//! `/compact-and`, `/queue` and `/fork-and-compact` until a turn finishes.
use vstd::prelude::*;
use vstd::string::*;
use crate::text::{is_blank, trimmed, trim, str_is_blank, owned};
use crate::hints::{COMPACT_AND_REQUIRES_CONVERSATION_HINT, QUEUE_REQUIRES_CONVERSATION_HINT, QUEUE_REQUIRES_PROMPT_HINT};

verus! {

/// The command a bare `/compact` summarize turn is sent as.
pub const COMPACT_COMMAND: &'static str = "/compact";

/// `input` unchanged (leading whitespace included) unless it is blank.
pub fn raw_prompt_if_not_blank(input: &str) -> (r: Option<&str>)
    ensures
        is_blank(input@) ==> r is None,
        !is_blank(input@) ==> r == Some(input),
{
    if str_is_blank(input) {
        None
    } else {
        Some(input)
    }
}

pub open spec fn opt_str(o: Option<&str>) -> Option<Seq<char>> {
    match o {
        Some(s) => Some(s@),
        None => None,
    }
}

pub open spec fn normalized_prompt(prompt: Option<Seq<char>>) -> Option<Seq<char>> {
    match prompt {
        Some(p) => if trimmed(p).len() > 0 {
            Some(trimmed(p))
        } else {
            None
        },
        None => None,
    }
}

/// Trims a slash-command argument and drops it when nothing is left.
pub fn normalize_optional_prompt(prompt: Option<&str>) -> (r: Option<String>)
    ensures
        match r {
            Some(p) => normalized_prompt(
                match prompt {
                    Some(q) => Some(q@),
                    None => None,
                },
            ) == Some(p@),
            None => normalized_prompt(
                match prompt {
                    Some(q) => Some(q@),
                    None => None,
                },
            ) is None,
        },
{
    match prompt {
        Some(p) => {
            let t = trim(p);
            if t.as_str().unicode_len() > 0 {
                Some(t)
            } else {
                None
            }
        },
        None => None,
    }
}

/// The query a summarize, plan or init command is sent as: the command name,
/// followed by a space and the argument when there is a non-empty one.
pub fn command_prompt(command_name: &str, argument: Option<&str>) -> (r: String)
    ensures
        r@ == match argument {
            Some(a) => if a@.len() == 0 {
                command_name@
            } else {
                command_name@ + " "@ + a@
            },
            None => command_name@,
        },
{
    let mut out = owned(command_name);
    if let Some(a) = argument {
        if a.unicode_len() > 0 {
            out.append(" ");
            out.append(a);
        }
    }
    out
}

/// Where a conversation's turn stands.
#[derive(Clone, Copy, Debug, PartialEq, Eq, Structural)]
pub enum ConversationStatus {
    InProgress,
    Blocked,
    Success,
    Error,
    Cancelled,
}

/// A turn is running (or waiting on an approval within it).
pub open spec fn is_running(status: ConversationStatus) -> bool {
    status == ConversationStatus::InProgress || status == ConversationStatus::Blocked
}

/// A prompt held to be submitted after a conversation's current turn ends.
#[derive(Debug, PartialEq, Eq)]
pub struct QueuedFollowUp {
    pub conversation_id: String,
    pub prompt: String,
    /// Whether the turn was seen running; only then does its end send.
    pub seen_in_progress: bool,
}

/// What a status change does to the held follow-up.
#[derive(Debug, PartialEq, Eq)]
pub enum FollowUpAction {
    Nothing,
    /// Send the prompt on the next tick.
    Send(String),
    /// The turn failed or was cancelled: put the prompt back into the empty input.
    RestoreToInput(String),
    /// The turn failed or was cancelled and the user is typing: drop the prompt.
    Drop,
}

pub open spec fn follows(queued: Option<QueuedFollowUp>, conversation_id: Seq<char>) -> bool {
    queued is Some && queued->0.conversation_id@ == conversation_id
}

/// The held follow-up after a status change of `conversation_id`, whose new
/// status is `status` (`None` when it is no longer known), and what the
/// session does about it.
pub open spec fn follow_up_step(
    queued: Option<QueuedFollowUp>,
    conversation_id: Seq<char>,
    status: Option<ConversationStatus>,
    input_is_empty: bool,
) -> (Option<QueuedFollowUp>, FollowUpAction) {
    if !follows(queued, conversation_id) || status is None {
        (queued, FollowUpAction::Nothing)
    } else {
        let f = queued->0;
        let st = status->0;
        if is_running(st) {
            (Some(QueuedFollowUp { seen_in_progress: true, ..f }), FollowUpAction::Nothing)
        } else if !f.seen_in_progress {
            (queued, FollowUpAction::Nothing)
        } else if st == ConversationStatus::Error || st == ConversationStatus::Cancelled {
            (None, if input_is_empty {
                FollowUpAction::RestoreToInput(f.prompt)
            } else {
                FollowUpAction::Drop
            })
        } else {
            (None, FollowUpAction::Send(f.prompt))
        }
    }
}

/// Drives the follow-up on a status change of `conversation_id`, whose new
/// status is `status` (`None` when it is no longer known). Once the turn has
/// been seen running, its end sends the prompt on success, or returns it to
/// an empty input on error or cancellation so that it is not lost.
pub fn on_conversation_status(
    queued: &mut Option<QueuedFollowUp>,
    conversation_id: &str,
    status: Option<ConversationStatus>,
    input_is_empty: bool,
) -> (r: FollowUpAction)
    ensures
        (*final(queued), r) == follow_up_step(*old(queued), conversation_id@, status, input_is_empty),
{
    let matches = match queued {
        Some(f) => {
            let id: String = conversation_id.to_owned();
            f.conversation_id == id
        },
        None => false,
    };
    if !matches {
        return FollowUpAction::Nothing;
    }
    let status = match status {
        Some(s) => s,
        None => return FollowUpAction::Nothing,
    };
    if status == ConversationStatus::InProgress || status == ConversationStatus::Blocked {
        let f = queued.take().unwrap();
        *queued = Some(QueuedFollowUp { seen_in_progress: true, ..f });
        return FollowUpAction::Nothing;
    }
    let seen = match queued {
        Some(f) => f.seen_in_progress,
        None => false,
    };
    if !seen {
        return FollowUpAction::Nothing;
    }
    let f = queued.take().unwrap();
    if status == ConversationStatus::Error || status == ConversationStatus::Cancelled {
        if input_is_empty {
            FollowUpAction::RestoreToInput(f.prompt)
        } else {
            FollowUpAction::Drop
        }
    } else {
        FollowUpAction::Send(f.prompt)
    }
}

/// A removed or deleted conversation takes its held follow-up with it.
pub fn forget_conversation(queued: &mut Option<QueuedFollowUp>, conversation_id: &str)
    ensures
        follows(*old(queued), conversation_id@) ==> *final(queued) is None,
        !follows(*old(queued), conversation_id@) ==> *final(queued) == *old(queued),
{
    let matches = match queued {
        Some(f) => {
            let id: String = conversation_id.to_owned();
            f.conversation_id == id
        },
        None => false,
    };
    if matches {
        *queued = None;
    }
}

/// The outcome of `/compact-and <prompt>`.
#[derive(Debug, PartialEq, Eq)]
pub enum CompactAndOutcome {
    /// No conversation is selected: show this hint.
    RequiresConversation(&'static str),
    /// Send the bare summarize command; the follow-up (if any) is armed.
    SendCompact(&'static str),
}

/// `/compact-and <prompt>`: arms the trimmed prompt (when non-empty) to be
/// sent once the summarize turn, which has not been seen running yet, ends.
pub fn compact_and(
    queued: &mut Option<QueuedFollowUp>,
    selected_conversation: Option<&str>,
    argument: Option<&str>,
) -> (r: CompactAndOutcome)
    ensures
        selected_conversation is None ==> r == CompactAndOutcome::RequiresConversation(
            COMPACT_AND_REQUIRES_CONVERSATION_HINT,
        ) && *final(queued) == *old(queued),
        selected_conversation is Some ==> {
            &&& r == CompactAndOutcome::SendCompact(COMPACT_COMMAND)
            &&& match normalized_prompt(
                match argument {
                    Some(a) => Some(a@),
                    None => None,
                },
            ) {
                Some(p) => *final(queued) matches Some(f) && f.conversation_id@
                    == selected_conversation->0@ && f.prompt@ == p && !f.seen_in_progress,
                None => *final(queued) is None,
            }
        },
{
    let conversation_id = match selected_conversation {
        Some(id) => id,
        None => return CompactAndOutcome::RequiresConversation(COMPACT_AND_REQUIRES_CONVERSATION_HINT),
    };
    *queued = match normalize_optional_prompt(argument) {
        Some(prompt) => Some(
            QueuedFollowUp {
                conversation_id: owned(conversation_id),
                prompt,
                seen_in_progress: false,
            },
        ),
        None => None,
    };
    CompactAndOutcome::SendCompact(COMPACT_COMMAND)
}

/// The outcome of `/queue <prompt>`.
#[derive(Debug, PartialEq, Eq)]
pub enum QueueOutcome {
    RequiresConversation(&'static str),
    RequiresPrompt(&'static str),
    /// Held until the running turn ends.
    Queued,
    /// Nothing is running: send the prompt now.
    SendNow(String),
}

/// `/queue <prompt>`: hold the trimmed prompt while the selected
/// conversation's turn is running (already seen running), otherwise send it
/// at once.
pub fn queue_prompt(
    queued: &mut Option<QueuedFollowUp>,
    selected_conversation: Option<&str>,
    argument: Option<&str>,
    turn_is_running: bool,
) -> (r: QueueOutcome)
    ensures
        selected_conversation is None ==> r == QueueOutcome::RequiresConversation(
            QUEUE_REQUIRES_CONVERSATION_HINT,
        ) && *final(queued) == *old(queued),
        selected_conversation is Some && normalized_prompt(
            match argument {
                Some(a) => Some(a@),
                None => None,
            },
        ) is None ==> r == QueueOutcome::RequiresPrompt(QUEUE_REQUIRES_PROMPT_HINT)
            && *final(queued) == *old(queued),
        selected_conversation is Some && normalized_prompt(opt_str(argument)) is Some
            ==> if turn_is_running {
            &&& r == QueueOutcome::Queued
            &&& (*final(queued) matches Some(f) && f.conversation_id@ == selected_conversation->0@
                && f.prompt@ == normalized_prompt(opt_str(argument))->0 && f.seen_in_progress)
        } else {
            &&& (r matches QueueOutcome::SendNow(s) && s@ == normalized_prompt(opt_str(argument))->0)
            &&& *final(queued) == *old(queued)
        },
{
    let conversation_id = match selected_conversation {
        Some(id) => id,
        None => return QueueOutcome::RequiresConversation(QUEUE_REQUIRES_CONVERSATION_HINT),
    };
    let prompt = match normalize_optional_prompt(argument) {
        Some(p) => p,
        None => return QueueOutcome::RequiresPrompt(QUEUE_REQUIRES_PROMPT_HINT),
    };
    if turn_is_running {
        *queued = Some(
            QueuedFollowUp { conversation_id: owned(conversation_id), prompt, seen_in_progress: true },
        );
        QueueOutcome::Queued
    } else {
        QueueOutcome::SendNow(prompt)
    }
}

/// `/fork-and-compact <prompt>` on the fork `forked_id`: arms the trimmed
/// prompt (when non-empty) for after the fork's summarize turn.
pub fn arm_after_fork_compact(
    queued: &mut Option<QueuedFollowUp>,
    forked_id: &str,
    prompt: Option<&str>,
)
    ensures
        match normalized_prompt(
            match prompt {
                Some(a) => Some(a@),
                None => None,
            },
        ) {
            Some(p) => *final(queued) matches Some(f) && f.conversation_id@ == forked_id@ && f.prompt@
                == p && !f.seen_in_progress,
            None => *final(queued) is None,
        },
{
    *queued = match normalize_optional_prompt(prompt) {
        Some(p) => Some(
            QueuedFollowUp { conversation_id: owned(forked_id), prompt: p, seen_in_progress: false },
        ),
        None => None,
    };
}

} // verus!
