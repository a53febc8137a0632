//! Properties that hold across the library's operations: what repeated or
//! combined calls do, and what every state keeps.
use vstd::prelude::*;
use crate::text::{lemma_trimmed_idempotent, plain, SpanView};
use crate::follow_up::{QueuedFollowUp, ConversationStatus, FollowUpAction, follows, follow_up_step, is_running, normalized_prompt};
use crate::session_ui::{toggled, flag_set, vim_mode_target, KeymapInputs, SessionFlag, layout, LayoutInputs};
use crate::session_io::InputTarget;
use crate::slash_commands::{fixed_plan, SlashCommandKind, SlashCommandAction, SlashCommandContext};
use crate::status_menu::{status_rows, StatusInfo, pad_right, STATUS_LABEL_WIDTH};
use crate::completions::{CompletionRequestSnapshot, request_is_current, next_generation};
use crate::restore::{ConversationRestore, RestoreOrigin, after_start, after_cancel, loading_request};
use crate::footer_row::{SegmentKind, Separator, separator_between, is_indicator, is_location, row_of, row_prefix, row_piece, SegmentView};
use crate::footer::{FooterState, footer_spans, configured_segments, leading_segments, statusline_segments, item_segment, tone_role};
use crate::statusline::StatuslineItem;
use crate::interrupt::{OrchestrationSnapshot, kill_target};
use crate::keymap::{KeyContext, BindingContext, SessionAction, context_holds, has_flag, session_binding_table};

verus! {

/// Hiding and then showing (or showing and then hiding) one exchange's
/// summary leaves every summary as it was.
pub proof fn law_toggling_a_summary_twice_restores_it(hidden: Set<Seq<char>>, id: Seq<char>)
    ensures
        toggled(toggled(hidden, id), id) == hidden,
        toggled(hidden, id).contains(id) != hidden.contains(id),
{
    assert(toggled(toggled(hidden, id), id) =~= hidden);
}

/// A slash-command argument that was already trimmed is left as it is by
/// trimming again.
pub proof fn law_trimmed_prompt_is_stable(prompt: Option<Seq<char>>)
    ensures
        normalized_prompt(normalized_prompt(prompt)) == normalized_prompt(prompt),
{
    if let Some(p) = prompt {
        lemma_trimmed_idempotent(p);
    }
}

/// Aborting a completion fetch makes the results of every request issued
/// before it stale, whatever else still matches.
pub proof fn law_abort_discards_outstanding_results(
    request: CompletionRequestSnapshot,
    current_input: Option<(Seq<char>, usize)>,
    current_session_id: Option<u64>,
    current_working_directory: Option<Seq<char>>,
    has_active_inline_menu: bool,
)
    ensures
        !request_is_current(
            request,
            next_generation(request.generation),
            current_input,
            current_session_id,
            current_working_directory,
            has_active_inline_menu,
        ),
        !request_is_current(
            request,
            next_generation(next_generation(request.generation)),
            current_input,
            current_session_id,
            current_working_directory,
            has_active_inline_menu,
        ),
{
}

/// Every restore operation keeps a load in flight tagged with the last
/// request id issued.
pub proof fn law_restore_keeps_its_request_tag(r: ConversationRestore, origin: RestoreOrigin)
    requires
        r.wf(),
    ensures
        after_start(r, origin).0.wf(),
        after_cancel(r).wf(),
{
}

/// A cancelled load never becomes current again: neither right after the
/// cancel nor for the load started next.
pub proof fn law_cancelled_load_is_never_current_again(r: ConversationRestore, origin: RestoreOrigin)
    requires
        r.wf(),
        r.state is Loading,
    ensures
        loading_request(after_cancel(r).state) != Some(r.state->request_id),
        after_start(after_cancel(r), origin).1 != Some(r.state->request_id),
        loading_request(after_start(after_cancel(r), origin).0.state) != Some(r.state->request_id),
{
}

/// A follow-up whose turn has not been seen running is not sent by a status
/// that is not a running one: it waits for its own turn.
pub proof fn law_follow_up_waits_for_its_turn(
    queued: Option<QueuedFollowUp>,
    conversation_id: Seq<char>,
    status: ConversationStatus,
    input_is_empty: bool,
)
    requires
        follows(queued, conversation_id),
        !queued->0.seen_in_progress,
        !is_running(status),
    ensures
        follow_up_step(queued, conversation_id, Some(status), input_is_empty) == (
            queued,
            FollowUpAction::Nothing,
        ),
{
}

/// A held follow-up is sent, once, when its turn runs and then succeeds.
pub proof fn law_follow_up_is_sent_when_its_turn_succeeds(
    queued: Option<QueuedFollowUp>,
    conversation_id: Seq<char>,
    input_is_empty: bool,
)
    requires
        follows(queued, conversation_id),
    ensures
        follow_up_step(
            follow_up_step(queued, conversation_id, Some(ConversationStatus::InProgress), input_is_empty).0,
            conversation_id,
            Some(ConversationStatus::Success),
            input_is_empty,
        ) == (None::<QueuedFollowUp>, FollowUpAction::Send(queued->0.prompt)),
{
}

/// A held follow-up whose turn fails or is cancelled goes back into an empty
/// input rather than being lost.
pub proof fn law_failed_turn_returns_follow_up_to_empty_input(
    queued: Option<QueuedFollowUp>,
    conversation_id: Seq<char>,
    status: ConversationStatus,
)
    requires
        follows(queued, conversation_id),
        status == ConversationStatus::Error || status == ConversationStatus::Cancelled,
    ensures
        follow_up_step(
            follow_up_step(queued, conversation_id, Some(ConversationStatus::InProgress), true).0,
            conversation_id,
            Some(status),
            true,
        ) == (None::<QueuedFollowUp>, FollowUpAction::RestoreToInput(queued->0.prompt)),
{
}

/// Status changes of other conversations leave a held follow-up alone.
pub proof fn law_follow_up_ignores_other_conversations(
    queued: Option<QueuedFollowUp>,
    conversation_id: Seq<char>,
    status: Option<ConversationStatus>,
    input_is_empty: bool,
)
    requires
        !follows(queued, conversation_id),
    ensures
        follow_up_step(queued, conversation_id, status, input_is_empty) == (
            queued,
            FollowUpAction::Nothing,
        ),
{
}

/// Shell mode reserves Tab for completion: attachments never take it there,
/// and elsewhere only an idle composer hands it to them.
pub proof fn law_shell_mode_reserves_tab(k: KeymapInputs)
    ensures
        k.shell_mode ==> !flag_set(k, SessionFlag::AttachmentsAvailable),
        flag_set(k, SessionFlag::AttachmentsAvailable) ==> flag_set(k, SessionFlag::ComposerShortcutsActive),
{
}

/// Within a footer group (the active indicators, or the working directory
/// with its branch items) adjacent items are never split by a pipe; pipes
/// only stand between groups, and never next to the shell-mode label.
pub proof fn law_pipes_only_between_groups(a: SegmentKind, b: SegmentKind)
    ensures
        is_indicator(a) && is_indicator(b) ==> separator_between(a, b) == Separator::Dot,
        is_location(a) && is_location(b) ==> separator_between(a, b) != Separator::Pipe,
        a == SegmentKind::ShellMode || b == SegmentKind::ShellMode ==> separator_between(a, b)
            != Separator::Pipe,
        separator_between(a, b) == Separator::Pipe ==> !(is_indicator(a) && is_indicator(b)) && !(
        is_location(a) && is_location(b)),
{
}

/// A footer row of no segments renders nothing, and one of a single segment
/// renders just that segment, with no separator.
pub proof fn law_row_edges_carry_no_separator(seg: SegmentView)
    ensures
        row_of(Seq::<SegmentView>::empty()) == Seq::<SpanView>::empty(),
        row_of(seq![seg]) == seg.1,
{
    let segs = seq![seg];
    assert(row_prefix(segs, 0) =~= Seq::<SpanView>::empty());
    assert(row_piece(segs, 0) =~= seg.1);
    assert(row_prefix(segs, 1) =~= row_prefix(segs, 0) + row_piece(segs, 0));
}

proof fn lemma_nothing_enabled_contributes_nothing(st: FooterState, i: nat)
    requires
        st.config.enabled@.len() == 0,
        i <= st.config.order@.len(),
    ensures
        configured_segments(st, i) == Seq::<SegmentView>::empty(),
    decreases i,
{
    if i > 0 {
        lemma_nothing_enabled_contributes_nothing(st, (i - 1) as nat);
        let item = st.config.order@[i - 1];
        assert(!st.config.enabled@.contains(item));
        assert(configured_segments(st, i) =~= Seq::<SegmentView>::empty());
    }
}

/// With no statusline item enabled, and nothing else to show, the footer
/// takes no room at all.
pub proof fn law_empty_statusline_has_zero_height(st: FooterState)
    requires
        st.config.enabled@.len() == 0,
        st.vim_mode is None,
        !st.shell_mode,
        !st.exit_confirmation_armed,
        !st.loading_from_conversation_list,
        st.transient is None,
        !st.agent_tagged_in,
        st.mcp_install_flow is None,
        st.mcp_menu is None,
    ensures
        footer_spans(st) == Seq::<SpanView>::empty(),
{
    lemma_nothing_enabled_contributes_nothing(st, st.config.order@.len());
    assert(statusline_segments(st) =~= Seq::<SegmentView>::empty());
}

/// A transient notice replaces every footer section, unless the ctrl-c
/// confirmation or a conversation-list load is showing.
pub proof fn law_transient_notice_replaces_all_sections(st: FooterState)
    requires
        st.transient is Some,
        !st.exit_confirmation_armed,
        !st.loading_from_conversation_list,
    ensures
        footer_spans(st) == seq![plain(st.transient->0.text@, tone_role(st.transient->0.tone))],
{
}

/// In shell mode the footer resolves only the working-directory and git
/// items: no model, context usage, auto-approve or queue indicator, pull
/// request, to-do progress, date or time.
pub proof fn law_shell_mode_hides_agent_sections(st: FooterState)
    requires
        st.shell_mode,
    ensures
        item_segment(st, StatuslineItem::Model) is None,
        item_segment(st, StatuslineItem::ContextWindowUsage) is None,
        item_segment(st, StatuslineItem::AutoApprove) is None,
        item_segment(st, StatuslineItem::AutoQueue) is None,
        item_segment(st, StatuslineItem::GitHubPullRequest) is None,
        item_segment(st, StatuslineItem::AgentTodoList) is None,
        item_segment(st, StatuslineItem::Date) is None,
        item_segment(st, StatuslineItem::Time12Hour) is None,
        item_segment(st, StatuslineItem::Time24Hour) is None,
{
}

/// Tab has exactly one owner wherever the composer or the session surface
/// has focus: the attachment bar while attachments can take focus, and
/// completion otherwise. No other binding of the session is on Tab.
pub proof fn law_tab_has_exactly_one_owner(cx: KeyContext)
    ensures
        session_binding_table()[10].action == SessionAction::FocusAttachments,
        session_binding_table()[11].action == SessionAction::TriggerCompletions,
        session_binding_table()[10].key == Some("tab"),
        session_binding_table()[11].key == Some("tab"),
        forall|i: int|
            0 <= i < session_binding_table().len() && i != 10 && i != 11 ==> (
            #[trigger] session_binding_table()[i]).key != Some("tab"),
        (cx.input_view || cx.session_view) ==> context_holds(session_binding_table()[10].context, cx)
            != context_holds(session_binding_table()[11].context, cx),
        !(cx.input_view || cx.session_view) ==> !context_holds(session_binding_table()[10].context, cx)
            && !context_holds(session_binding_table()[11].context, cx),
{
    reveal_strlit("tab");
    reveal_strlit("ctrl-d");
    reveal_strlit("escape");
    reveal_strlit("ctrl-shift-I");
    reveal_strlit("ctrl-shift-enter");
    reveal_strlit("ctrl-shift-P");
    reveal_strlit("ctrl-p");
    reveal_strlit("ctrl-v");
    reveal_strlit("down");
    reveal_strlit("shift-down");
    let t = session_binding_table();
    assert(t[0].key == Some("ctrl-d"));
    assert(t[1].key == Some("escape"));
    assert("ctrl-d"@.len() != "tab"@.len());
    assert("escape"@.len() != "tab"@.len());
    assert(t[0].key->0@ != "tab"@);
    assert(t[1].key->0@ != "tab"@);
    assert(t[5].key->0@ != "tab"@);
    assert(t[6].key->0@ != "tab"@);
    assert(t[7].key->0@ != "tab"@);
    assert(t[8].key->0@ != "tab"@);
    assert(t[9].key->0@ != "tab"@);
    assert(t[12].key->0@ != "tab"@);
    assert(t[13].key->0@ != "tab"@);
    assert(t[14].key->0@ != "tab"@);
    assert(t[15].key->0@ != "tab"@);
    assert forall|i: int| 0 <= i < t.len() && i != 10 && i != 11 implies (#[trigger] t[i]).key
        != Some("tab") by {
        assert(i == 0 || i == 1 || i == 2 || i == 3 || i == 4 || i == 5 || i == 6 || i == 7 || i
            == 8 || i == 9 || i == 12 || i == 13 || i == 14 || i == 15);
    }
}

/// In shell mode Tab always completes: with the session's flags set as the
/// keymap inputs dictate, the attachment binding is never live there.
pub proof fn law_shell_mode_tab_completes(k: KeymapInputs, cx: KeyContext)
    requires
        k.shell_mode,
        cx.input_view || cx.session_view,
        forall|f: SessionFlag| #[trigger] has_flag(cx, f) <==> flag_set(k, f),
    ensures
        context_holds(BindingContext::ComposerWithout(SessionFlag::AttachmentsAvailable), cx),
        !context_holds(BindingContext::ComposerWith(SessionFlag::AttachmentsAvailable), cx),
{
    assert(has_flag(cx, SessionFlag::AttachmentsAvailable) <==> flag_set(
        k,
        SessionFlag::AttachmentsAvailable,
    ));
}

/// The orchestration tab bar's bindings are live only while the tab bar has
/// focus, never in the composer alone.
pub proof fn law_tab_bar_bindings_need_tab_focus(cx: KeyContext)
    ensures
        forall|i: int|
            0 <= i < session_binding_table().len() && ((#[trigger] session_binding_table()[i]).action
                == SessionAction::FocusDefaultInteractionTarget || session_binding_table()[i].action
                == SessionAction::FocusMainOrchestrationTab) ==> (context_holds(
                session_binding_table()[i].context,
                cx,
            ) ==> cx.session_view && has_flag(cx, SessionFlag::OrchestrationTabBarFocused)),
{
}

/// Ctrl-p toggles the plan only while a plan can be toggled and the
/// keyboard cannot send ctrl-shift-p itself.
pub proof fn law_contextual_plan_toggle_yields_to_enhanced_keyboards(cx: KeyContext)
    ensures
        context_holds(BindingContext::ContextualPlanToggle, cx) ==> has_flag(
            cx,
            SessionFlag::PlanToggleAvailable,
        ) && !has_flag(cx, SessionFlag::KeyboardEnhancementAvailable),
{
}

/// The root of an orchestration tree is never a kill target, as long as the
/// selected tab is the main slot or one of the rendered level's children and
/// the root is not among those children.
pub proof fn law_root_is_never_a_kill_target(s: OrchestrationSnapshot, anchor_descendants: Option<usize>)
    requires
        s.selected_conversation_id@ == s.anchor_conversation_id@ || exists|i: int|
            0 <= i < s.children@.len() && (#[trigger] s.children@[i]).conversation_id@
                == s.selected_conversation_id@,
        forall|i: int|
            0 <= i < s.children@.len() ==> (#[trigger] s.children@[i]).conversation_id@
                != s.root_conversation_id@,
    ensures
        kill_target(s, anchor_descendants) matches Some((id, _)) ==> id != s.root_conversation_id@,
{
}

/// `/vim` writes the opposite of the current setting, so two successful
/// toggles write the setting back to what it was.
pub proof fn law_vim_toggle_is_an_involution(enabled: bool)
    ensures
        vim_mode_target(vim_mode_target(enabled)) == enabled,
        vim_mode_target(enabled) != enabled,
{
}

proof fn lemma_only_the_diff_item_gives_a_diff_segment(st: FooterState, item: StatuslineItem)
    ensures
        item_segment(st, item) matches Some(seg) ==> (seg.0 == SegmentKind::GitDiff <==> item
            == StatuslineItem::GitDiffStatus),
{
}

proof fn lemma_configured_git_diff(st: FooterState, i: nat)
    requires
        i <= st.config.order@.len(),
    ensures
        (exists|j: int|
            0 <= j < configured_segments(st, i).len() && (#[trigger] configured_segments(st, i)[j]).0
                == SegmentKind::GitDiff) <==> ((exists|k: int|
            0 <= k < i && (#[trigger] st.config.order@[k]) == StatuslineItem::GitDiffStatus)
            && st.config.enabled@.contains(StatuslineItem::GitDiffStatus) && st.git is Some
            && st.git->0.files_changed > 0),
    decreases i,
{
    if i > 0 {
        let prev = configured_segments(st, (i - 1) as nat);
        let cur = configured_segments(st, i);
        let item = st.config.order@[i - 1];
        lemma_configured_git_diff(st, (i - 1) as nat);
        lemma_only_the_diff_item_gives_a_diff_segment(st, item);
        let extra = if st.config.enabled@.contains(item) && item_segment(st, item) is Some {
            seq![item_segment(st, item)->0]
        } else {
            Seq::<SegmentView>::empty()
        };
        assert(cur == prev + extra);
        if exists|j: int| 0 <= j < cur.len() && (#[trigger] cur[j]).0 == SegmentKind::GitDiff {
            let j = choose|j: int| 0 <= j < cur.len() && (#[trigger] cur[j]).0 == SegmentKind::GitDiff;
            if j < prev.len() {
                assert(prev[j] == cur[j]);
                assert(prev[j].0 == SegmentKind::GitDiff);
                let k = choose|k: int|
                    0 <= k < i - 1 && (#[trigger] st.config.order@[k]) == StatuslineItem::GitDiffStatus;
                assert(st.config.order@[k] == StatuslineItem::GitDiffStatus);
            } else {
                assert(extra.len() == 1);
                assert(cur[j] == extra[0]);
                assert(item == StatuslineItem::GitDiffStatus);
                assert(st.config.order@[i - 1] == StatuslineItem::GitDiffStatus);
            }
        }
        if (exists|k: int|
            0 <= k < i && (#[trigger] st.config.order@[k]) == StatuslineItem::GitDiffStatus)
            && st.config.enabled@.contains(StatuslineItem::GitDiffStatus) && st.git is Some
            && st.git->0.files_changed > 0 {
            let k = choose|k: int|
                0 <= k < i && (#[trigger] st.config.order@[k]) == StatuslineItem::GitDiffStatus;
            if k < i - 1 {
                assert(st.config.order@[k] == StatuslineItem::GitDiffStatus);
                let j = choose|j: int| 0 <= j < prev.len() && (#[trigger] prev[j]).0 == SegmentKind::GitDiff;
                assert(cur[j] == prev[j]);
            } else {
                assert(item == StatuslineItem::GitDiffStatus);
                assert(cur[prev.len() as int] == extra[0]);
                assert(cur[prev.len() as int].0 == SegmentKind::GitDiff);
            }
        }
    }
}

/// The git-diff segment is shown only while at least one file has changed:
/// the item yields a segment exactly when the repository reports changed
/// files, and the statusline holds a diff segment exactly when the item is
/// configured, enabled, and files have changed.
pub proof fn law_git_diff_shown_only_with_changed_files(st: FooterState)
    ensures
        item_segment(st, StatuslineItem::GitDiffStatus) is Some <==> (st.git is Some
            && st.git->0.files_changed > 0),
        (exists|j: int|
            0 <= j < statusline_segments(st).len() && (#[trigger] statusline_segments(st)[j]).0
                == SegmentKind::GitDiff) <==> (st.config.order@.contains(StatuslineItem::GitDiffStatus)
            && st.config.enabled@.contains(StatuslineItem::GitDiffStatus) && st.git is Some
            && st.git->0.files_changed > 0),
{
    let n = st.config.order@.len();
    lemma_configured_git_diff(st, n);
    let lead = leading_segments(st);
    let conf = configured_segments(st, n);
    let all = statusline_segments(st);
    assert(all == lead + conf);
    assert forall|j: int| 0 <= j < lead.len() implies (#[trigger] lead[j]).0 != SegmentKind::GitDiff by {
        assert(lead[j].0 == SegmentKind::Vim || lead[j].0 == SegmentKind::ShellMode);
    }
    if exists|j: int| 0 <= j < all.len() && (#[trigger] all[j]).0 == SegmentKind::GitDiff {
        let j = choose|j: int| 0 <= j < all.len() && (#[trigger] all[j]).0 == SegmentKind::GitDiff;
        if j < lead.len() {
            assert(all[j] == lead[j]);
        } else {
            assert(all[j] == conf[j - lead.len()]);
            assert(conf[j - lead.len()].0 == SegmentKind::GitDiff);
        }
        let k = choose|k: int|
            0 <= k < n && (#[trigger] st.config.order@[k]) == StatuslineItem::GitDiffStatus;
        assert(st.config.order@[k] == StatuslineItem::GitDiffStatus);
    }
    if st.config.order@.contains(StatuslineItem::GitDiffStatus) && st.config.enabled@.contains(
        StatuslineItem::GitDiffStatus,
    ) && st.git is Some && st.git->0.files_changed > 0 {
        let k = choose|k: int| 0 <= k < n && st.config.order@[k] == StatuslineItem::GitDiffStatus;
        assert(st.config.order@[k] == StatuslineItem::GitDiffStatus);
        let j = choose|j: int| 0 <= j < conf.len() && (#[trigger] conf[j]).0 == SegmentKind::GitDiff;
        assert(all[lead.len() + j] == conf[j]);
        assert(all[lead.len() + j].0 == SegmentKind::GitDiff);
    }
}

/// `/nld` flips natural-language detection: it writes the opposite of the
/// current setting and clears the composer, so running it again once the
/// setting was written writes the original setting back.
pub proof fn law_nld_toggles_detection(ctx: SlashCommandContext, applied: SlashCommandContext)
    requires
        applied.natural_language_detection_enabled != ctx.natural_language_detection_enabled,
    ensures
        fixed_plan(SlashCommandKind::NaturalLanguageDetection, ctx) matches Some(
            (SlashCommandAction::SetNaturalLanguageDetection(written), clear),
        ) && written != ctx.natural_language_detection_enabled && clear,
        fixed_plan(SlashCommandKind::NaturalLanguageDetection, applied) matches Some(
            (SlashCommandAction::SetNaturalLanguageDetection(written), _),
        ) && written == ctx.natural_language_detection_enabled,
{
}

/// Outside a full-screen app, with no blocker and no statusline picker and
/// the agent editor or the disabled input as target, the composer is laid
/// out and an open read-only menu (`/status`, shortcuts, to-dos) is drawn
/// above it exactly when one is open, whatever inline menu is open.
pub proof fn law_read_only_menu_shown_exactly_when_open(k: LayoutInputs, inline_menu_open: bool)
    requires
        !k.alt_screen_active,
        !k.blocker_active,
        !k.statusline_config_open,
        k.input_target == InputTarget::AgentEditor || k.input_target == InputTarget::Disabled,
    ensures
        layout(k).composer,
        layout(k).read_only_menu == k.read_only_menu_open,
        layout((LayoutInputs { inline_menu_open, ..k })).read_only_menu == k.read_only_menu_open,
{
}

/// Escape cancels a loading restore: the session registers a cancel-restore
/// binding, and every such binding is on escape and live exactly while the
/// session reports a cancellable restore.
pub proof fn law_escape_cancels_restore_exactly_while_cancellable(cx: KeyContext)
    ensures
        exists|i: int|
            0 <= i < session_binding_table().len() && (#[trigger] session_binding_table()[i]).action
                == SessionAction::CancelRestore,
        forall|i: int|
            0 <= i < session_binding_table().len() && (#[trigger] session_binding_table()[i]).action
                == SessionAction::CancelRestore ==> session_binding_table()[i].key == Some("escape")
                && context_holds(session_binding_table()[i].context, cx) == has_flag(
                cx,
                SessionFlag::CanCancelRestore,
            ),
{
    let t = session_binding_table();
    assert(t[1].action == SessionAction::CancelRestore);
    assert forall|i: int| 0 <= i < t.len() && (#[trigger] t[i]).action == SessionAction::CancelRestore
        implies t[i].key == Some("escape") && context_holds(t[i].context, cx) == has_flag(
        cx,
        SessionFlag::CanCancelRestore,
    ) by {
        assert(i == 0 || i == 1 || i == 2 || i == 3 || i == 4 || i == 5 || i == 6 || i == 7 || i
            == 8 || i == 9 || i == 10 || i == 11 || i == 12 || i == 13 || i == 14 || i == 15);
    }
}

proof fn lemma_padded_label_starts_with_label(label: Seq<char>)
    requires
        0 < label.len() < STATUS_LABEL_WIDTH,
    ensures
        pad_right(label, STATUS_LABEL_WIDTH as nat).len() == STATUS_LABEL_WIDTH,
        pad_right(label, STATUS_LABEL_WIDTH as nat)[0] == label[0],
{
}

/// Each `/status` row shows its own field: the row labelled Version shows the
/// version, Session the session title, Conversation ID the conversation id,
/// and Working directory the working directory. Every label has a row, and
/// no other row carries it.
pub proof fn law_status_rows_show_their_own_fields(info: StatusInfo)
    ensures
        forall|i: int| 0 <= i < status_rows(info).len() ==> (#[trigger] status_rows(info)[i]).len() == 2,
        exists|i: int|
            0 <= i < status_rows(info).len() && (#[trigger] status_rows(info)[i])[0].0 == pad_right(
                "Version"@,
                STATUS_LABEL_WIDTH as nat,
            ) && status_rows(info)[i][1].0 == info.version@,
        exists|i: int|
            0 <= i < status_rows(info).len() && (#[trigger] status_rows(info)[i])[0].0 == pad_right(
                "Session"@,
                STATUS_LABEL_WIDTH as nat,
            ) && status_rows(info)[i][1].0 == info.session@,
        exists|i: int|
            0 <= i < status_rows(info).len() && (#[trigger] status_rows(info)[i])[0].0 == pad_right(
                "Conversation ID"@,
                STATUS_LABEL_WIDTH as nat,
            ) && status_rows(info)[i][1].0 == info.conversation_id@,
        exists|i: int|
            0 <= i < status_rows(info).len() && (#[trigger] status_rows(info)[i])[0].0 == pad_right(
                "Working directory"@,
                STATUS_LABEL_WIDTH as nat,
            ) && status_rows(info)[i][1].0 == info.working_directory@,
        forall|i: int|
            0 <= i < status_rows(info).len() && (#[trigger] status_rows(info)[i])[0].0 == pad_right(
                "Version"@,
                STATUS_LABEL_WIDTH as nat,
            ) ==> status_rows(info)[i][1].0 == info.version@,
        forall|i: int|
            0 <= i < status_rows(info).len() && (#[trigger] status_rows(info)[i])[0].0 == pad_right(
                "Session"@,
                STATUS_LABEL_WIDTH as nat,
            ) ==> status_rows(info)[i][1].0 == info.session@,
        forall|i: int|
            0 <= i < status_rows(info).len() && (#[trigger] status_rows(info)[i])[0].0 == pad_right(
                "Conversation ID"@,
                STATUS_LABEL_WIDTH as nat,
            ) ==> status_rows(info)[i][1].0 == info.conversation_id@,
        forall|i: int|
            0 <= i < status_rows(info).len() && (#[trigger] status_rows(info)[i])[0].0 == pad_right(
                "Working directory"@,
                STATUS_LABEL_WIDTH as nat,
            ) ==> status_rows(info)[i][1].0 == info.working_directory@,
{
    reveal_strlit("Version");
    reveal_strlit("Session");
    reveal_strlit("Conversation ID");
    reveal_strlit("Working directory");
    let v = pad_right("Version"@, STATUS_LABEL_WIDTH as nat);
    let s = pad_right("Session"@, STATUS_LABEL_WIDTH as nat);
    let c = pad_right("Conversation ID"@, STATUS_LABEL_WIDTH as nat);
    let w = pad_right("Working directory"@, STATUS_LABEL_WIDTH as nat);
    lemma_padded_label_starts_with_label("Version"@);
    lemma_padded_label_starts_with_label("Session"@);
    lemma_padded_label_starts_with_label("Conversation ID"@);
    lemma_padded_label_starts_with_label("Working directory"@);
    assert(v[0] == 'V' && s[0] == 'S' && c[0] == 'C' && w[0] == 'W');
    assert(v != s && v != c && v != w && s != c && s != w && c != w);
    let rows = status_rows(info);
    assert(rows[0][0].0 == v && rows[1][0].0 == s && rows[2][0].0 == c && rows[3][0].0 == w);
}

} // verus!
