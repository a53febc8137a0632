//! What the footer row under the input shows: a replacing hint, an MCP
//! controls row, or the configured statusline items in their order.
use vstd::prelude::*;
use vstd::string::*;
use crate::text::{StyleRole, StyledSpan, SpanView, spans_view, plain, decimal, owned, span, duplicate_spans, duplicate_opt};
use crate::footer_row::{FooterSegment, FooterSegments, SegmentKind, SegmentView, segment_view, row_of, git_diff_spans, render_status_footer_row, SHELL_MODE_HINT};
use crate::statusline::{StatuslineConfig, StatuslineItem, VimMode, vim_label, vim_mode_indicator, plain_git_branch_renders, should_render_plain_git_branch, branch_status_spans, opt_view, auto_approve_control_spans, hover_role, todo_progress, format_todo_progress, render_git_branch_status, render_auto_approve_statusline, render_hoverable_label, pull_request_label};
use crate::datetime::{StatuslineDateTime, statusline_date, format_statusline_date, format_statusline_time_12_hour, format_statusline_time_24_hour, two_digits, twelve_hour, meridiem};
use crate::hints::{McpAction, mcp_menu_footer_spans, mcp_install_footer_spans, render_mcp_menu_footer, render_mcp_install_footer, CTRL_C_EXIT_HINT, CTRL_C_KILL_CHILD_HINT, LOADING_CONVERSATION_HINT, RUNNING_COMMAND_DETACH_HINT};

verus! {

/// The colour a transient footer notice is shown in.
#[derive(Clone, Copy, Debug, PartialEq, Eq, Structural)]
pub enum HintTone {
    Muted,
    Success,
    Error,
}

pub open spec fn tone_role(tone: HintTone) -> StyleRole {
    match tone {
        HintTone::Muted => StyleRole::Muted,
        HintTone::Success => StyleRole::SuccessGlyph,
        HintTone::Error => StyleRole::Error,
    }
}

/// A notice occupying the footer's transient hint slot.
#[derive(Debug, PartialEq, Eq)]
pub struct TransientNotice {
    pub text: String,
    pub tone: HintTone,
}

/// The repository status the git items read.
#[derive(Debug, PartialEq, Eq)]
pub struct GitStatusSummary {
    pub branch: String,
    pub rebased: bool,
    pub ahead: Option<String>,
    pub behind: Option<String>,
    pub files_changed: usize,
    pub additions: usize,
    pub deletions: usize,
}

/// Progress of the selected conversation's non-empty active to-do list.
#[derive(Clone, Copy, Debug, PartialEq, Eq)]
pub struct TodoProgress {
    pub completed: usize,
    pub total: usize,
    pub finished: bool,
}

/// The `/mcp` menu's state as its controls row reads it.
#[derive(Clone, Copy, Debug, PartialEq, Eq)]
pub struct McpMenuControls {
    pub primary_action: Option<McpAction>,
    pub can_log_out: bool,
}

/// Everything the footer reads from the session.
pub struct FooterState {
    pub exit_confirmation_armed: bool,
    pub child_kill_armed: bool,
    pub loading_from_conversation_list: bool,
    pub transient: Option<TransientNotice>,
    pub agent_tagged_in: bool,
    /// `Some` while the MCP install flow is open, with its Enter hint.
    pub mcp_install_flow: Option<Option<String>>,
    pub mcp_menu: Option<McpMenuControls>,
    pub vim_mode: Option<VimMode>,
    pub shell_mode: bool,
    pub config: StatuslineConfig,
    pub auto_approve_enabled: bool,
    pub auto_approve_hovered: bool,
    pub follow_up_queued: bool,
    pub model_name: String,
    pub model_hovered: bool,
    pub working_directory: Option<String>,
    pub git: Option<GitStatusSummary>,
    pub pull_request_number: Option<u64>,
    /// The rendered context-usage entry, present once usage was reported.
    pub context_usage: Option<Vec<StyledSpan>>,
    pub now: StatuslineDateTime,
    pub todo: Option<TodoProgress>,
    pub todo_hovered: bool,
}

/// The segment one configured item contributes, if any.
pub open spec fn item_segment(st: FooterState, item: StatuslineItem) -> Option<SegmentView> {
    let shell = st.shell_mode;
    match item {
        StatuslineItem::AutoApprove => if !shell {
            Some(
                (
                    SegmentKind::AutoApproveIndicator,
                    auto_approve_control_spans(st.auto_approve_enabled, st.auto_approve_hovered),
                ),
            )
        } else {
            None
        },
        StatuslineItem::AutoQueue => if !shell && st.follow_up_queued {
            Some((SegmentKind::ActiveIndicator, seq![plain("Queued"@, StyleRole::SuccessGlyph)]))
        } else {
            None
        },
        StatuslineItem::Model => if !shell {
            Some(
                (
                    SegmentKind::Model,
                    seq![plain(st.model_name@, hover_role(st.model_hovered))],
                ),
            )
        } else {
            None
        },
        StatuslineItem::WorkingDirectory => match st.working_directory {
            Some(cwd) => Some((SegmentKind::WorkingDirectory, seq![plain(cwd@, StyleRole::Muted)])),
            None => None,
        },
        StatuslineItem::GitBranch => match st.git {
            Some(g) => if plain_git_branch_renders(st.config.enabled@) {
                Some((SegmentKind::GitBranch, seq![plain(g.branch@, StyleRole::Muted)]))
            } else {
                None
            },
            None => None,
        },
        StatuslineItem::GitBranchStatus => match st.git {
            Some(g) => Some(
                (
                    SegmentKind::GitBranchStatus,
                    branch_status_spans(g.branch@, g.rebased, opt_view(g.ahead), opt_view(g.behind)),
                ),
            ),
            None => None,
        },
        StatuslineItem::GitDiffStatus => match st.git {
            Some(g) => if g.files_changed > 0 {
                Some(
                    (
                        SegmentKind::GitDiff,
                        git_diff_spans(g.files_changed as nat, g.additions as nat, g.deletions as nat),
                    ),
                )
            } else {
                None
            },
            None => None,
        },
        StatuslineItem::GitHubPullRequest => match st.pull_request_number {
            Some(n) => if !shell {
                Some(
                    (
                        SegmentKind::GitHubPullRequest,
                        seq![plain("PR #"@ + decimal(n as nat), StyleRole::Link)],
                    ),
                )
            } else {
                None
            },
            None => None,
        },
        StatuslineItem::ContextWindowUsage => match st.context_usage {
            Some(v) => if !shell {
                Some((SegmentKind::ContextWindowUsage, spans_view(v@)))
            } else {
                None
            },
            None => None,
        },
        StatuslineItem::Date => if !shell {
            Some((SegmentKind::DateTime, seq![plain(statusline_date(st.now), StyleRole::Muted)]))
        } else {
            None
        },
        StatuslineItem::Time12Hour => if !shell {
            Some(
                (
                    SegmentKind::DateTime,
                    seq![
                        plain(
                            decimal(twelve_hour(st.now.hour as nat)) + ":"@ + two_digits(
                                st.now.minute as nat,
                            ) + meridiem(st.now.hour as nat),
                            StyleRole::Muted,
                        ),
                    ],
                ),
            )
        } else {
            None
        },
        StatuslineItem::Time24Hour => if !shell {
            Some(
                (
                    SegmentKind::DateTime,
                    seq![
                        plain(
                            two_digits(st.now.hour as nat) + ":"@ + two_digits(st.now.minute as nat),
                            StyleRole::Muted,
                        ),
                    ],
                ),
            )
        } else {
            None
        },
        StatuslineItem::AgentTodoList => match st.todo {
            Some(t) => if !shell {
                Some(
                    (
                        SegmentKind::AgentTodoList,
                        seq![
                            plain(
                                todo_progress(t.completed as nat, t.total as nat, t.finished),
                                hover_role(st.todo_hovered),
                            ),
                        ],
                    ),
                )
            } else {
                None
            },
            None => None,
        },
    }
}

/// Segments of the first `i` configured items, skipping disabled ones and
/// items with nothing to show.
pub open spec fn configured_segments(st: FooterState, i: nat) -> Seq<SegmentView>
    decreases i,
{
    if i == 0 {
        Seq::empty()
    } else {
        let item = st.config.order@[i - 1];
        configured_segments(st, (i - 1) as nat) + if st.config.enabled@.contains(item)
            && item_segment(st, item) is Some {
            seq![item_segment(st, item)->0]
        } else {
            Seq::empty()
        }
    }
}

/// The leading vim and shell-mode segments.
pub open spec fn leading_segments(st: FooterState) -> Seq<SegmentView> {
    (match st.vim_mode {
        Some(m) => seq![(SegmentKind::Vim, seq![plain(vim_label(m), StyleRole::AccentBorder)])],
        None => Seq::empty(),
    }) + if st.shell_mode {
        seq![(SegmentKind::ShellMode, seq![plain(SHELL_MODE_HINT@, StyleRole::ShellCommandAccent)])]
    } else {
        Seq::empty()
    }
}

/// All segments of the statusline row, in order.
pub open spec fn statusline_segments(st: FooterState) -> Seq<SegmentView> {
    leading_segments(st) + configured_segments(st, st.config.order@.len())
}

/// The footer: replacing hints first in their priority order (ctrl-c
/// confirmation, conversation-list loading, transient notice, running-command
/// detach), then the MCP install flow's and the MCP menu's controls, and
/// otherwise the statusline row.
pub open spec fn footer_spans(st: FooterState) -> Seq<SpanView> {
    if st.exit_confirmation_armed {
        seq![
            plain(
                if st.child_kill_armed { CTRL_C_KILL_CHILD_HINT@ } else { CTRL_C_EXIT_HINT@ },
                StyleRole::Muted,
            ),
        ]
    } else if st.loading_from_conversation_list {
        seq![plain(LOADING_CONVERSATION_HINT@, StyleRole::Muted)]
    } else if st.transient is Some {
        seq![plain(st.transient->0.text@, tone_role(st.transient->0.tone))]
    } else if st.agent_tagged_in {
        seq![plain(RUNNING_COMMAND_DETACH_HINT@, StyleRole::Muted)]
    } else if st.mcp_install_flow is Some {
        mcp_install_footer_spans(opt_view(st.mcp_install_flow->0))
    } else if st.mcp_menu is Some {
        mcp_menu_footer_spans(st.mcp_menu->0.primary_action, st.mcp_menu->0.can_log_out)
    } else {
        row_of(statusline_segments(st))
    }
}

fn single_span(text: String, role: StyleRole) -> (r: Vec<StyledSpan>)
    ensures
        spans_view(r@) == seq![plain(text@, role)],
{
    let out = vec![span(text, role)];
    assert(spans_view(out@) =~= seq![plain(text@, role)]);
    out
}

fn configured_item_segment(st: &FooterState, item: StatuslineItem) -> (r: Option<FooterSegment>)
    requires
        st.now.wf(),
    ensures
        match r {
            Some(seg) => item_segment(*st, item) == Some(segment_view(seg)),
            None => item_segment(*st, item) is None,
        },
{
    let shell = st.shell_mode;
    match item {
        StatuslineItem::AutoApprove => if !shell {
            Some(
                FooterSegment::AutoApproveIndicator(
                    render_auto_approve_statusline(
                        st.auto_approve_enabled,
                        st.auto_approve_hovered,
                    ),
                ),
            )
        } else {
            None
        },
        StatuslineItem::AutoQueue => if !shell && st.follow_up_queued {
            Some(FooterSegment::ActiveIndicator(owned("Queued")))
        } else {
            None
        },
        StatuslineItem::Model => if !shell {
            Some(
                FooterSegment::Model(
                    render_hoverable_label(st.model_name.clone(), st.model_hovered),
                ),
            )
        } else {
            None
        },
        StatuslineItem::WorkingDirectory => match &st.working_directory {
            Some(cwd) => Some(FooterSegment::WorkingDirectory(cwd.clone())),
            None => None,
        },
        StatuslineItem::GitBranch => match &st.git {
            Some(g) => if should_render_plain_git_branch(&st.config) {
                Some(FooterSegment::GitBranch(g.branch.clone()))
            } else {
                None
            },
            None => None,
        },
        StatuslineItem::GitBranchStatus => match &st.git {
            Some(g) => Some(
                FooterSegment::GitBranchStatus(
                    render_git_branch_status(
                        g.branch.as_str(),
                        g.rebased,
                        duplicate_opt(&g.ahead),
                        duplicate_opt(&g.behind),
                    ),
                ),
            ),
            None => None,
        },
        StatuslineItem::GitDiffStatus => match &st.git {
            Some(g) => if g.files_changed > 0 {
                Some(
                    FooterSegment::GitDiff {
                        files_changed: g.files_changed,
                        additions: g.additions,
                        deletions: g.deletions,
                    },
                )
            } else {
                None
            },
            None => None,
        },
        StatuslineItem::GitHubPullRequest => match st.pull_request_number {
            Some(n) => if !shell {
                Some(
                    FooterSegment::GitHubPullRequest(
                        single_span(pull_request_label(n), StyleRole::Link),
                    ),
                )
            } else {
                None
            },
            None => None,
        },
        StatuslineItem::ContextWindowUsage => match &st.context_usage {
            Some(v) => if !shell {
                Some(FooterSegment::ContextWindowUsage(duplicate_spans(v)))
            } else {
                None
            },
            None => None,
        },
        StatuslineItem::Date => if !shell {
            Some(
                FooterSegment::DateTime(
                    single_span(format_statusline_date(st.now), StyleRole::Muted),
                ),
            )
        } else {
            None
        },
        StatuslineItem::Time12Hour => if !shell {
            Some(
                FooterSegment::DateTime(
                    single_span(format_statusline_time_12_hour(st.now), StyleRole::Muted),
                ),
            )
        } else {
            None
        },
        StatuslineItem::Time24Hour => if !shell {
            Some(
                FooterSegment::DateTime(
                    single_span(format_statusline_time_24_hour(st.now), StyleRole::Muted),
                ),
            )
        } else {
            None
        },
        StatuslineItem::AgentTodoList => match st.todo {
            Some(t) => if !shell {
                Some(
                    FooterSegment::AgentTodoList(
                        render_hoverable_label(
                            format_todo_progress(t.completed, t.total, t.finished),
                            st.todo_hovered,
                        ),
                    ),
                )
            } else {
                None
            },
            None => None,
        },
    }
}

/// Resolves the statusline's segments: the vim label, the shell-mode label,
/// then each enabled configured item that has something to show.
pub fn resolve_statusline_segments(st: &FooterState) -> (r: Vec<FooterSegment>)
    requires
        st.now.wf(),
    ensures
        r@.map_values(|s: FooterSegment| segment_view(s)) == statusline_segments(*st),
{
    let mut ordered: Vec<FooterSegment> = Vec::new();
    if let Some(label) = vim_mode_indicator(st.vim_mode) {
        ordered.push(FooterSegment::Vim(owned(label)));
    }
    if st.shell_mode {
        ordered.push(FooterSegment::ShellMode);
    }
    assert(ordered@.map_values(|s: FooterSegment| segment_view(s)) =~= leading_segments(*st));
    let mut i: usize = 0;
    while i < st.config.order.len()
        invariant
            st.now.wf(),
            i <= st.config.order@.len(),
            ordered@.map_values(|s: FooterSegment| segment_view(s)) == leading_segments(*st)
                + configured_segments(*st, i as nat),
        decreases st.config.order.len() - i,
    {
        let item = st.config.order[i];
        if st.config.is_enabled(item) {
            if let Some(segment) = configured_item_segment(st, item) {
                let ghost before = ordered@;
                ordered.push(segment);
                assert(ordered@.map_values(|s: FooterSegment| segment_view(s)) =~= before.map_values(
                    |s: FooterSegment| segment_view(s),
                ).push(segment_view(segment)));
            }
        }
        assert(leading_segments(*st) + configured_segments(*st, (i + 1) as nat) =~= leading_segments(
            *st,
        ) + configured_segments(*st, i as nat) + (if st.config.enabled@.contains(item)
            && item_segment(*st, item) is Some {
            seq![item_segment(*st, item)->0]
        } else {
            Seq::empty()
        }));
        i = i + 1;
    }
    ordered
}

/// Builds the footer row shown under the input box.
pub fn render_footer(st: &FooterState) -> (r: Vec<StyledSpan>)
    requires
        st.now.wf(),
    ensures
        spans_view(r@) == footer_spans(*st),
{
    if st.exit_confirmation_armed {
        let hint = if st.child_kill_armed { CTRL_C_KILL_CHILD_HINT } else { CTRL_C_EXIT_HINT };
        return single_span(owned(hint), StyleRole::Muted);
    }
    if st.loading_from_conversation_list {
        return single_span(owned(LOADING_CONVERSATION_HINT), StyleRole::Muted);
    }
    if let Some(notice) = &st.transient {
        let role = match notice.tone {
            HintTone::Muted => StyleRole::Muted,
            HintTone::Success => StyleRole::SuccessGlyph,
            HintTone::Error => StyleRole::Error,
        };
        return single_span(notice.text.clone(), role);
    }
    if st.agent_tagged_in {
        return single_span(owned(RUNNING_COMMAND_DETACH_HINT), StyleRole::Muted);
    }
    if let Some(hint) = &st.mcp_install_flow {
        return render_mcp_install_footer(
            match hint {
                Some(h) => Some(h.as_str()),
                None => None,
            },
        );
    }
    if let Some(menu) = st.mcp_menu {
        return render_mcp_menu_footer(menu.primary_action, menu.can_log_out);
    }
    let ordered = resolve_statusline_segments(st);
    render_status_footer_row(FooterSegments { ordered })
}

} // verus!
