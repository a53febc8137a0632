use warp_tui::follow_up::QueuedFollowUp;
use warp_tui::session_events::{actions_to_revert, history_event_effects, HistoryEvent, HistoryEventKind, RevertCandidate};

fn event(kind: HistoryEventKind, view: Option<u64>, conversation: Option<&str>) -> HistoryEvent {
    HistoryEvent { kind, terminal_view_id: view, conversation_id: conversation.map(str::to_owned) }
}

fn held(id: &str) -> Option<QueuedFollowUp> {
    Some(QueuedFollowUp { conversation_id: id.to_owned(), prompt: "p".to_owned(), seen_in_progress: true })
}

#[test]
fn events_of_other_surfaces_are_ignored() {
    let mut queued = held("c1");
    let effects = history_event_effects(&mut queued, &event(HistoryEventKind::DeletedConversation, Some(2), Some("c1")), 1);
    assert!(!effects.notify);
    assert_eq!(effects.forget_conversation, None);
    assert_eq!(queued, held("c1"));
}

#[test]
fn status_updates_repaint_and_drive_the_follow_up() {
    let mut queued = None;
    let effects = history_event_effects(&mut queued, &event(HistoryEventKind::UpdatedConversationStatus, Some(1), Some("c1")), 1);
    assert!(effects.notify);
    assert_eq!(effects.check_follow_up.as_deref(), Some("c1"));
    assert!(!effects.sync_todo_menu);
    let todo = history_event_effects(&mut queued, &event(HistoryEventKind::UpdatedTodoList, None, Some("c1")), 1);
    assert!(todo.notify && todo.sync_todo_menu);
    let restored = history_event_effects(&mut queued, &event(HistoryEventKind::RestoredConversations, None, None), 1);
    assert!(restored.refresh_exit_summary && !restored.notify);
    let cleared = history_event_effects(&mut queued, &event(HistoryEventKind::ClearedConversationsInTerminalView, Some(1), None), 1);
    assert!(cleared.clear_subagent_views);
}

#[test]
fn removed_conversations_drop_their_follow_up() {
    let mut queued = held("c1");
    let effects = history_event_effects(&mut queued, &event(HistoryEventKind::RemoveConversation, Some(1), Some("c2")), 1);
    assert_eq!(effects.forget_conversation.as_deref(), Some("c2"));
    assert_eq!(queued, held("c1"));
    history_event_effects(&mut queued, &event(HistoryEventKind::DeletedConversation, None, Some("c1")), 1);
    assert_eq!(queued, None);
}

#[test]
fn rewind_reverts_removed_recorded_successful_edits_newest_first() {
    let candidate = |action: &str, exchange: &str, registered: bool, succeeded: bool| RevertCandidate {
        action_id: action.to_owned(),
        exchange_id: exchange.to_owned(),
        registered,
        succeeded,
    };
    let candidates = vec![
        candidate("a1", "e1", true, true),
        candidate("a2", "e2", true, true),
        candidate("a3", "e2", false, true),
        candidate("a4", "e3", true, false),
        candidate("a5", "e3", true, true),
    ];
    let removed = vec!["e2".to_owned(), "e3".to_owned()];
    assert_eq!(actions_to_revert(&candidates, &removed), vec!["a5".to_owned(), "a2".to_owned()]);
    assert!(actions_to_revert(&candidates, &Vec::new()).is_empty());
}
