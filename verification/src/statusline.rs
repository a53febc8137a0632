//! Statusline items: the configured item set, and the spans the composite
//! and interactive items render as.
use vstd::prelude::*;
use vstd::string::*;
use crate::text::{StyleRole, StyledSpan, SpanView, spans_view, plain, decimal, push_decimal, owned, span};

verus! {

/// A configurable statusline item.
#[derive(Clone, Copy, Debug, PartialEq, Eq, Structural)]
pub enum StatuslineItem {
    AutoApprove,
    AutoQueue,
    Model,
    WorkingDirectory,
    GitBranch,
    GitBranchStatus,
    GitDiffStatus,
    GitHubPullRequest,
    ContextWindowUsage,
    Date,
    Time12Hour,
    Time24Hour,
    AgentTodoList,
}

/// Every statusline item, in declaration order.
pub fn all_statusline_items() -> (r: Vec<StatuslineItem>)
    ensures
        r@ == seq![
            StatuslineItem::AutoApprove,
            StatuslineItem::AutoQueue,
            StatuslineItem::Model,
            StatuslineItem::WorkingDirectory,
            StatuslineItem::GitBranch,
            StatuslineItem::GitBranchStatus,
            StatuslineItem::GitDiffStatus,
            StatuslineItem::GitHubPullRequest,
            StatuslineItem::ContextWindowUsage,
            StatuslineItem::Date,
            StatuslineItem::Time12Hour,
            StatuslineItem::Time24Hour,
            StatuslineItem::AgentTodoList,
        ],
        forall|item: StatuslineItem| r@.contains(item),
{
    let r = vec![
        StatuslineItem::AutoApprove,
        StatuslineItem::AutoQueue,
        StatuslineItem::Model,
        StatuslineItem::WorkingDirectory,
        StatuslineItem::GitBranch,
        StatuslineItem::GitBranchStatus,
        StatuslineItem::GitDiffStatus,
        StatuslineItem::GitHubPullRequest,
        StatuslineItem::ContextWindowUsage,
        StatuslineItem::Date,
        StatuslineItem::Time12Hour,
        StatuslineItem::Time24Hour,
        StatuslineItem::AgentTodoList,
    ];
    assert forall|item: StatuslineItem| r@.contains(item) by {
        match item {
            StatuslineItem::AutoApprove => assert(r@[0] == item),
            StatuslineItem::AutoQueue => assert(r@[1] == item),
            StatuslineItem::Model => assert(r@[2] == item),
            StatuslineItem::WorkingDirectory => assert(r@[3] == item),
            StatuslineItem::GitBranch => assert(r@[4] == item),
            StatuslineItem::GitBranchStatus => assert(r@[5] == item),
            StatuslineItem::GitDiffStatus => assert(r@[6] == item),
            StatuslineItem::GitHubPullRequest => assert(r@[7] == item),
            StatuslineItem::ContextWindowUsage => assert(r@[8] == item),
            StatuslineItem::Date => assert(r@[9] == item),
            StatuslineItem::Time12Hour => assert(r@[10] == item),
            StatuslineItem::Time24Hour => assert(r@[11] == item),
            StatuslineItem::AgentTodoList => assert(r@[12] == item),
        }
    }
    r
}

/// The persisted statusline configuration: presentation order and the
/// enabled items.
#[derive(Debug, PartialEq, Eq)]
pub struct StatuslineConfig {
    pub order: Vec<StatuslineItem>,
    pub enabled: Vec<StatuslineItem>,
}

impl StatuslineConfig {
    /// Whether `item` is enabled.
    pub fn is_enabled(&self, item: StatuslineItem) -> (r: bool)
        ensures
            r == self.enabled@.contains(item),
    {
        let mut i: usize = 0;
        while i < self.enabled.len()
            invariant
                i <= self.enabled@.len(),
                forall|j: int| 0 <= j < i ==> self.enabled@[j] != item,
            decreases self.enabled.len() - i,
        {
            if self.enabled[i] == item {
                return true;
            }
            i = i + 1;
        }
        false
    }
}

/// Whether the plain branch item renders: the composite branch-status item
/// is a superset of it, so when both are enabled the composite one wins.
pub open spec fn plain_git_branch_renders(enabled: Seq<StatuslineItem>) -> bool {
    enabled.contains(StatuslineItem::GitBranch) && !enabled.contains(
        StatuslineItem::GitBranchStatus,
    )
}

/// Whether the plain `GitBranch` item should render.
pub fn should_render_plain_git_branch(config: &StatuslineConfig) -> (r: bool)
    ensures
        r == plain_git_branch_renders(config.enabled@),
{
    config.is_enabled(StatuslineItem::GitBranch) && !config.is_enabled(
        StatuslineItem::GitBranchStatus,
    )
}

/// `❒ 1/10` while items remain, `✓ 10/10` once the list is finished.
pub open spec fn todo_progress(completed: nat, total: nat, finished: bool) -> Seq<char> {
    (if finished { "✓"@ } else { "❒"@ }) + " "@ + decimal(completed) + "/"@ + decimal(total)
}

/// Formats the active conversation's to-do progress for the statusline.
pub fn format_todo_progress(completed: usize, total: usize, finished: bool) -> (r: String)
    ensures
        r@ == todo_progress(completed as nat, total as nat, finished),
{
    let mut out = if finished { owned("✓") } else { owned("❒") };
    out.append(" ");
    push_decimal(&mut out, completed as u64);
    out.append("/");
    push_decimal(&mut out, total as u64);
    out
}

/// The composite branch item `⊢ main • ↑1 ↓2`: muted name and counts,
/// accented arrows; a rebase in progress shows `⇅` in place of the counts,
/// and with nothing to report the item is a bare `⊢ main`.
pub open spec fn branch_status_spans(
    branch: Seq<char>,
    rebased: bool,
    ahead: Option<Seq<char>>,
    behind: Option<Seq<char>>,
) -> Seq<SpanView> {
    seq![plain("⊢ "@ + branch, StyleRole::Muted)] + (if rebased || ahead is Some || behind is Some {
        seq![plain(" • "@, StyleRole::Muted)]
    } else {
        Seq::empty()
    }) + if rebased {
        seq![plain("⇅"@, StyleRole::Accent)]
    } else {
        (match ahead {
            Some(a) => seq![
                plain("↑"@, StyleRole::Accent),
                plain(a + if behind is Some { " "@ } else { Seq::empty() }, StyleRole::Muted),
            ],
            None => Seq::empty(),
        }) + (match behind {
            Some(b) => seq![plain("↓"@, StyleRole::Accent), plain(b, StyleRole::Muted)],
            None => Seq::empty(),
        })
    }
}

pub open spec fn opt_view(o: Option<String>) -> Option<Seq<char>> {
    match o {
        Some(s) => Some(s@),
        None => None,
    }
}

/// Renders the composite branch item.
pub fn render_git_branch_status(
    branch: &str,
    rebased: bool,
    ahead: Option<String>,
    behind: Option<String>,
) -> (r: Vec<StyledSpan>)
    ensures
        spans_view(r@) == branch_status_spans(branch@, rebased, opt_view(ahead), opt_view(behind)),
{
    let has_ahead = ahead.is_some();
    let has_behind = behind.is_some();
    let mut out: Vec<StyledSpan> = Vec::new();
    let mut name = owned("⊢ ");
    name.append(branch);
    out.push(span(name, StyleRole::Muted));
    if rebased || has_ahead || has_behind {
        out.push(span(owned(" • "), StyleRole::Muted));
    }
    if rebased {
        out.push(span(owned("⇅"), StyleRole::Accent));
    } else {
        if let Some(a) = ahead {
            out.push(span(owned("↑"), StyleRole::Accent));
            let mut count = a;
            if has_behind {
                count.append(" ");
            }
            out.push(span(count, StyleRole::Muted));
        }
        if let Some(b) = behind {
            out.push(span(owned("↓"), StyleRole::Accent));
            out.push(span(b, StyleRole::Muted));
        }
    }
    assert(spans_view(out@) =~= branch_status_spans(
        branch@,
        rebased,
        opt_view(ahead),
        opt_view(behind),
    ));
    out
}

/// The footer's auto-approve toggle `▶▶`: success-coloured while the selected
/// conversation auto-approves, muted while it does not, bold while hovered.
pub open spec fn auto_approve_control_spans(enabled: bool, hovered: bool) -> Seq<SpanView> {
    seq![("▶▶"@, if enabled { StyleRole::SuccessGlyph } else { StyleRole::Muted }, hovered)]
}

/// Renders the footer's auto-approve control.
pub fn render_auto_approve_statusline(enabled: bool, hovered: bool) -> (r: Vec<StyledSpan>)
    ensures
        spans_view(r@) == auto_approve_control_spans(enabled, hovered),
{
    let role = if enabled { StyleRole::SuccessGlyph } else { StyleRole::Muted };
    let out = vec![StyledSpan { text: owned("▶▶"), role, bold: hovered }];
    assert(spans_view(out@) =~= auto_approve_control_spans(enabled, hovered));
    out
}

/// Primary while hovered, muted otherwise: the clickable footer labels.
pub open spec fn hover_role(hovered: bool) -> StyleRole {
    if hovered { StyleRole::Primary } else { StyleRole::Muted }
}

/// A clickable footer label (active model, to-do progress).
pub fn render_hoverable_label(label: String, hovered: bool) -> (r: Vec<StyledSpan>)
    ensures
        spans_view(r@) == seq![plain(label@, hover_role(hovered))],
{
    let role = if hovered { StyleRole::Primary } else { StyleRole::Muted };
    let out = vec![span(label, role)];
    assert(spans_view(out@) =~= seq![plain(label@, hover_role(hovered))]);
    out
}

/// The label of the current branch's pull-request link: `PR #123`.
pub fn pull_request_label(number: u64) -> (r: String)
    ensures
        r@ == "PR #"@ + decimal(number as nat),
{
    let mut out = owned("PR #");
    push_decimal(&mut out, number);
    out
}

/// The input editor's vim mode.
#[derive(Clone, Copy, Debug, PartialEq, Eq, Structural)]
pub enum VimMode {
    Normal,
    VisualCharwise,
    VisualLinewise,
    Replace,
    Insert,
}

pub open spec fn vim_label(mode: VimMode) -> Seq<char> {
    match mode {
        VimMode::Normal => "NOR"@,
        VimMode::VisualCharwise => "VIS"@,
        VimMode::VisualLinewise => "V-L"@,
        VimMode::Replace => "REP"@,
        VimMode::Insert => "INS"@,
    }
}

/// Brief vim mode label for the footer (NOR/INS/VIS/V-L/REP), or `None`
/// when vim mode is disabled.
pub fn vim_mode_indicator(mode: Option<VimMode>) -> (r: Option<&'static str>)
    ensures
        mode is None <==> r is None,
        mode is Some ==> r->0@ == vim_label(mode->0),
{
    match mode {
        None => None,
        Some(VimMode::Normal) => Some("NOR"),
        Some(VimMode::VisualCharwise) => Some("VIS"),
        Some(VimMode::VisualLinewise) => Some("V-L"),
        Some(VimMode::Replace) => Some("REP"),
        Some(VimMode::Insert) => Some("INS"),
    }
}

/// The repository the footer's git items watch, and which watches are live.
#[derive(Debug, PartialEq, Eq)]
pub struct RepoWatch {
    pub repo_path: Option<String>,
    /// The git-status subscription for `repo_path` is live.
    pub git_status: bool,
    /// The GitHub subscription for `repo_path` is live.
    pub github: bool,
}

pub open spec fn same_path(a: Option<String>, b: Option<&str>) -> bool {
    match (a, b) {
        (Some(x), Some(y)) => x@ == y@,
        (None, None) => true,
        _ => false,
    }
}

/// Repository detection finished for the working directory. A live watch of
/// the same repository is kept (`None`); otherwise every watch is dropped,
/// the new path recorded, and the path to watch returned, if there is one.
pub fn on_repo_detected(w: &mut RepoWatch, repo_path: Option<&str>) -> (r: Option<Option<String>>)
    ensures
        same_path(old(w).repo_path, repo_path) && old(w).git_status ==> r is None && *final(w)
            == *old(w),
        !(same_path(old(w).repo_path, repo_path) && old(w).git_status) ==> {
            &&& r matches Some(p) && opt_view(p) == match repo_path {
                Some(q) => Some(q@),
                None => None,
            }
            &&& opt_view(final(w).repo_path) == opt_view(r->0)
            &&& !final(w).git_status && !final(w).github
        },
{
    let same = match (&w.repo_path, repo_path) {
        (Some(x), Some(y)) => {
            let y: String = owned(y);
            *x == y
        },
        (None, None) => true,
        _ => false,
    };
    if same && w.git_status {
        return None;
    }
    let path = match repo_path {
        Some(p) => Some(owned(p)),
        None => None,
    };
    let kept = match &path {
        Some(p) => Some(owned(p.as_str())),
        None => None,
    };
    w.repo_path = kept;
    w.git_status = false;
    w.github = false;
    Some(path)
}

/// What the GitHub watch does after the statusline configuration or the
/// repository changed.
#[derive(Debug, PartialEq, Eq)]
pub enum GithubWatchStep {
    /// The pull-request item is off: the watch is dropped (and the footer repaints).
    Drop,
    /// Nothing to do: already watching, or no repository.
    Keep,
    /// Start watching this repository.
    Subscribe(String),
}

/// GitHub is watched only while the pull-request item is enabled, so a
/// session that never shows it never asks GitHub.
pub fn github_watch_step(w: &mut RepoWatch, pull_request_item_enabled: bool) -> (r: GithubWatchStep)
    ensures
        !pull_request_item_enabled ==> r == GithubWatchStep::Drop && !final(w).github
            && final(w).repo_path == old(w).repo_path && final(w).git_status == old(w).git_status,
        pull_request_item_enabled ==> *final(w) == *old(w) && if old(w).github || old(
            w,
        ).repo_path is None {
            r == GithubWatchStep::Keep
        } else {
            r matches GithubWatchStep::Subscribe(p) && p@ == old(w).repo_path->0@
        },
{
    if !pull_request_item_enabled {
        w.github = false;
        return GithubWatchStep::Drop;
    }
    if w.github {
        return GithubWatchStep::Keep;
    }
    match &w.repo_path {
        Some(p) => GithubWatchStep::Subscribe(owned(p.as_str())),
        None => GithubWatchStep::Keep,
    }
}

} // verus!
