use warp_tui::completions::{completion_query,
    
    common_prefix_acceptance, completion_request_is_current, menu_replacement, shell_completion_tab_action,
    single_candidate_acceptance, snapshot, CompletionRequestSnapshot, CompletionRequestState,
    ShellCompletionTabAction,
};

#[test]
fn tab_is_consumed_by_an_existing_non_completion_menu() {
    assert_eq!(
        shell_completion_tab_action(false, true),
        ShellCompletionTabAction::ConsumedByOpenInlineMenu,
    );
    // The completions popup keeps Tab even if the shared suggestions mode
    // reports it as the active inline menu.
    assert_eq!(
        shell_completion_tab_action(true, true),
        ShellCompletionTabAction::CycleCandidates,
    );
    assert_eq!(
        shell_completion_tab_action(true, false),
        ShellCompletionTabAction::CycleCandidates,
    );
    // With a clear composer Tab still starts a request.
    assert_eq!(
        shell_completion_tab_action(false, false),
        ShellCompletionTabAction::RequestCandidates,
    );
}

#[test]
fn completion_requests_reject_every_stale_snapshot_dimension() {
    let input = snapshot("git che", 7);
    let request = CompletionRequestSnapshot {
        input: input.duplicate(),
        session_id: 42,
        current_working_directory: "/repo".to_owned(),
        generation: 7,
    };
    assert!(completion_request_is_current(&request, 7, Some(&input), Some(42), Some("/repo"), false));

    let changed_input = snapshot("git checkout", 12);
    for is_current in [
        completion_request_is_current(&request, 8, Some(&input), Some(42), Some("/repo"), false),
        completion_request_is_current(&request, 7, Some(&changed_input), Some(42), Some("/repo"), false),
        completion_request_is_current(&request, 7, Some(&input), Some(43), Some("/repo"), false),
        completion_request_is_current(&request, 7, Some(&input), Some(42), Some("/other"), false),
        completion_request_is_current(&request, 7, Some(&input), Some(42), Some("/repo"), true),
    ] {
        assert!(!is_current);
    }
}

#[test]
fn missing_current_state_makes_a_request_stale() {
    let input = snapshot("ls", 2);
    let request = CompletionRequestSnapshot {
        input: input.duplicate(),
        session_id: 1,
        current_working_directory: "/".to_owned(),
        generation: 3,
    };
    assert!(!completion_request_is_current(&request, 3, None, Some(1), Some("/"), false));
    assert!(!completion_request_is_current(&request, 3, Some(&input), None, Some("/"), false));
    assert!(!completion_request_is_current(&request, 3, Some(&input), Some(1), None, false));
}

#[test]
fn abort_moves_the_generation_on_and_forgets_the_popup() {
    let mut state = CompletionRequestState::new();
    assert_eq!(state.generation, 0);
    let generation = state.begin_request();
    assert_eq!(generation, 2);
    assert!(state.in_flight);
    state.show_menu_for(snapshot("git ch", 6));
    assert!(state.abort());
    assert!(!state.in_flight);
    assert_eq!(state.generation, 3);
    assert!(state.menu_snapshot.is_none());
    assert!(!state.abort());
    assert_eq!(state.generation, 4);
}

#[test]
fn generation_wraps_around_instead_of_overflowing() {
    let mut state = CompletionRequestState { in_flight: false, generation: u64::MAX, menu_snapshot: None };
    state.abort();
    assert_eq!(state.generation, 0);
}

#[test]
fn finishing_a_stale_request_keeps_the_newer_fetch_in_flight() {
    let mut state = CompletionRequestState::new();
    let first = state.begin_request();
    let second = state.begin_request();
    state.finish(first);
    assert!(state.in_flight);
    state.finish(second);
    assert!(!state.in_flight);
}

#[test]
fn open_popup_survives_only_an_unchanged_buffer() {
    let mut state = CompletionRequestState::new();
    state.show_menu_for(snapshot("git ch", 6));
    let same = snapshot("git ch", 6);
    let moved = snapshot("git ch", 5);
    assert!(state.preserves_open_menu(true, Some(&same)));
    assert!(!state.preserves_open_menu(true, Some(&moved)));
    assert!(!state.preserves_open_menu(false, Some(&same)));
    assert!(!state.preserves_open_menu(true, None));
}

#[test]
fn single_candidate_appends_a_space_only_at_the_end_for_files() {
    let at_end = snapshot("git che", 7);
    let accepted = single_candidate_acceptance(&at_end, "checkout".to_owned(), 4, 7, false);
    assert_eq!(accepted.replacement, "checkout");
    assert_eq!((accepted.span_start, accepted.span_end), (4, 7));
    assert!(accepted.append_space);
    assert!(!single_candidate_acceptance(&at_end, "src/".to_owned(), 4, 7, true).append_space);
    let inside = snapshot("git che --", 7);
    assert!(!single_candidate_acceptance(&inside, "checkout".to_owned(), 4, 7, false).append_space);
    // The cursor is a byte offset: a multi-byte buffer ends past its char count.
    let unicode = snapshot("ls é", 5);
    assert!(single_candidate_acceptance(&unicode, "été".to_owned(), 3, 5, false).append_space);
}

#[test]
fn common_prefix_never_appends_a_space() {
    let accepted = common_prefix_acceptance("check".to_owned(), 4, 7);
    assert_eq!(accepted.replacement, "check");
    assert!(!accepted.append_space);
}

#[test]
fn popup_replaces_from_the_span_start_to_the_cursor() {
    let input = snapshot("git check", 9);
    assert_eq!(menu_replacement(&input, 4), (4, 9, true));
    let inside = snapshot("git check x", 9);
    assert_eq!(menu_replacement(&inside, 4), (4, 9, false));
}

#[test]
fn completion_query_is_the_replacement_span_when_it_is_valid() {
    let input = snapshot("ls é", 5);
    assert_eq!(completion_query(&input, 3, 5), Some("é".to_owned()));
    assert_eq!(completion_query(&input, 0, 2), Some("ls".to_owned()));
    assert_eq!(completion_query(&input, 5, 5), Some(String::new()));
    // Cuts the two-byte character.
    assert_eq!(completion_query(&input, 3, 4), None);
    assert_eq!(completion_query(&input, 4, 5), None);
    // Reversed or past the end.
    assert_eq!(completion_query(&input, 2, 0), None);
    assert_eq!(completion_query(&input, 3, 6), None);
    assert_eq!(completion_query(&snapshot("", 0), 0, 0), Some(String::new()));
}
