use warp_tui::hints::{RESTORE_LOAD_FAILED_MESSAGE, RESTORE_MISMATCH_MESSAGE, RESTORE_UNSUPPORTED_CONVERSATION_MESSAGE};
use warp_tui::restore::{
    agent_view_origin, restore_result_action, AgentViewEntryOrigin, ConversationRestore, LoadedConversation,
    RestoreFailure, RestoreOrigin, RestoreResultAction, RestoreScreen, RestoreState, RestoreTarget,
};

#[test]
fn a_second_start_while_loading_is_refused() {
    let mut restore = ConversationRestore::new();
    assert_eq!(restore.start(RestoreOrigin::Startup), Some(1));
    assert!(restore.is_loading());
    assert_eq!(restore.start(RestoreOrigin::ConversationList), None);
    assert!(restore.is_current_request(1));
    assert_eq!(restore.screen(), RestoreScreen::Restoring);
}

#[test]
fn cancelled_request_is_never_current_again() {
    let mut restore = ConversationRestore::new();
    let first = restore.start(RestoreOrigin::ConversationList).expect("started");
    assert!(restore.is_loading_from_conversation_list());
    assert_eq!(restore.cancel(), Some(false));
    assert!(!restore.is_current_request(first));
    assert_eq!(restore.cancel(), None);
    let second = restore.start(RestoreOrigin::ConversationList).expect("started");
    assert_ne!(first, second);
    assert!(!restore.is_current_request(first));
    assert!(!restore.attach_future(first));
    assert!(restore.attach_future(second));
}

#[test]
fn request_ids_wrap_around() {
    let mut restore = ConversationRestore { state: RestoreState::Idle, next_request_id: u64::MAX };
    assert_eq!(restore.start(RestoreOrigin::Fork), Some(0));
}

#[test]
fn failures_of_startup_and_switch_restores_differ() {
    let mut startup = ConversationRestore::new();
    let id = startup.start(RestoreOrigin::Startup).expect("started");
    assert_eq!(startup.fail(id + 1, "stale".to_owned()), RestoreFailure::Ignored);
    assert_eq!(startup.fail(id, "gone".to_owned()), RestoreFailure::ShownAsScreen);
    assert_eq!(startup.state, RestoreState::Failed("gone".to_owned()));
    assert_eq!(startup.screen(), RestoreScreen::Failed);

    let mut switch = ConversationRestore::new();
    let id = switch.start(RestoreOrigin::ConversationList).expect("started");
    assert_eq!(switch.screen(), RestoreScreen::Normal);
    assert_eq!(switch.fail(id, "gone".to_owned()), RestoreFailure::ShowHint("gone".to_owned()));
    assert_eq!(switch.state, RestoreState::Idle);
}

#[test]
fn completing_returns_to_idle() {
    let mut restore = ConversationRestore::new();
    restore.start(RestoreOrigin::Fork);
    restore.complete();
    assert_eq!(restore.state, RestoreState::Idle);
    assert_eq!(restore.screen(), RestoreScreen::Normal);
}

#[test]
fn restore_origins_map_to_agent_view_entry_origins() {
    for origin in [RestoreOrigin::Startup, RestoreOrigin::ConversationList, RestoreOrigin::Fork] {
        assert_eq!(agent_view_origin(origin), AgentViewEntryOrigin::RestoreExistingConversation);
    }
}

#[test]
fn only_the_requested_conversation_replaces_the_surface() {
    let idle = ConversationRestore::new();
    let mut loading = ConversationRestore::new();
    let id = loading.start(RestoreOrigin::ConversationList).expect("started");
    let loaded = Some(LoadedConversation::Agent { id: "c1".to_owned(), server_token: Some("tok".to_owned()) });
    assert_eq!(
        restore_result_action(&loading, id, &RestoreTarget::Local("c1".to_owned()), &loaded),
        RestoreResultAction::Replace
    );
    assert_eq!(
        restore_result_action(&loading, id, &RestoreTarget::Server("tok".to_owned()), &loaded),
        RestoreResultAction::Replace
    );
    assert_eq!(
        restore_result_action(&loading, id, &RestoreTarget::Local("c2".to_owned()), &loaded),
        RestoreResultAction::Fail(RESTORE_MISMATCH_MESSAGE.to_owned())
    );
    assert_eq!(
        restore_result_action(&loading, id, &RestoreTarget::Local("c1".to_owned()), &None),
        RestoreResultAction::Fail(RESTORE_LOAD_FAILED_MESSAGE.to_owned())
    );
    assert_eq!(
        restore_result_action(&loading, id, &RestoreTarget::Local("c1".to_owned()), &Some(LoadedConversation::CliAgent)),
        RestoreResultAction::Fail(RESTORE_UNSUPPORTED_CONVERSATION_MESSAGE.to_owned())
    );
    assert_eq!(
        restore_result_action(&idle, id, &RestoreTarget::Local("c1".to_owned()), &loaded),
        RestoreResultAction::Ignore
    );
}
