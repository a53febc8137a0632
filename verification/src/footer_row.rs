//! The footer's left-aligned status row: resolved segments, the two-tier
//! separator rules between them, and the styled spans the row renders as.
use vstd::prelude::*;
use vstd::string::*;
use crate::text::{StyleRole, StyledSpan, SpanView, spans_view, spans_text, plain, decimal, push_decimal, owned, span};

verus! {

/// Footer label shown while the input is in `!` shell mode.
pub const SHELL_MODE_HINT: &'static str = "shell mode";

/// One resolved item in the footer's configured presentation order.
/// Items the footer renders as interactive elements carry the spans
/// that element shows.
#[derive(Debug, PartialEq, Eq)]
pub enum FooterSegment {
    /// Vim mode label (NOR/INS/VIS/V-L/REP), the leading segment when present.
    Vim(String),
    ShellMode,
    ActiveIndicator(String),
    AutoApproveIndicator(Vec<StyledSpan>),
    Model(Vec<StyledSpan>),
    WorkingDirectory(String),
    GitBranch(String),
    GitBranchStatus(Vec<StyledSpan>),
    ContextWindowUsage(Vec<StyledSpan>),
    GitDiff { files_changed: usize, additions: usize, deletions: usize },
    DateTime(Vec<StyledSpan>),
    AgentTodoList(Vec<StyledSpan>),
    GitHubPullRequest(Vec<StyledSpan>),
}

/// Which kind of segment a value is, without its payload.
#[derive(Clone, Copy, Debug, PartialEq, Eq, Structural)]
pub enum SegmentKind {
    Vim,
    ShellMode,
    ActiveIndicator,
    AutoApproveIndicator,
    Model,
    WorkingDirectory,
    GitBranch,
    GitBranchStatus,
    ContextWindowUsage,
    GitDiff,
    DateTime,
    AgentTodoList,
    GitHubPullRequest,
}

/// The joiner placed between two adjacent segments.
#[derive(Clone, Copy, Debug, PartialEq, Eq, Structural)]
pub enum Separator {
    /// `" "`
    Space,
    /// `" ↬ "`, working directory to its branch.
    BranchMarker,
    /// `" • "`, within one group.
    Dot,
    /// `" | "`, across groups.
    Pipe,
}

pub open spec fn segment_kind(s: FooterSegment) -> SegmentKind {
    match s {
        FooterSegment::Vim(_) => SegmentKind::Vim,
        FooterSegment::ShellMode => SegmentKind::ShellMode,
        FooterSegment::ActiveIndicator(_) => SegmentKind::ActiveIndicator,
        FooterSegment::AutoApproveIndicator(_) => SegmentKind::AutoApproveIndicator,
        FooterSegment::Model(_) => SegmentKind::Model,
        FooterSegment::WorkingDirectory(_) => SegmentKind::WorkingDirectory,
        FooterSegment::GitBranch(_) => SegmentKind::GitBranch,
        FooterSegment::GitBranchStatus(_) => SegmentKind::GitBranchStatus,
        FooterSegment::ContextWindowUsage(_) => SegmentKind::ContextWindowUsage,
        FooterSegment::GitDiff { .. } => SegmentKind::GitDiff,
        FooterSegment::DateTime(_) => SegmentKind::DateTime,
        FooterSegment::AgentTodoList(_) => SegmentKind::AgentTodoList,
        FooterSegment::GitHubPullRequest(_) => SegmentKind::GitHubPullRequest,
    }
}

/// Members of the active-indicator group.
pub open spec fn is_indicator(k: SegmentKind) -> bool {
    k == SegmentKind::ActiveIndicator || k == SegmentKind::AutoApproveIndicator
}

/// Members of the working-directory/branch group.
pub open spec fn is_location(k: SegmentKind) -> bool {
    k == SegmentKind::WorkingDirectory || k == SegmentKind::GitBranch || k
        == SegmentKind::GitBranchStatus
}

/// The separator rule, first matching line wins.
pub open spec fn separator_between(a: SegmentKind, b: SegmentKind) -> Separator {
    if a == SegmentKind::Vim && (b == SegmentKind::ShellMode || b == SegmentKind::Model) {
        Separator::Space
    } else if a == SegmentKind::ShellMode && b == SegmentKind::WorkingDirectory {
        Separator::Space
    } else if a == SegmentKind::WorkingDirectory && b == SegmentKind::GitBranch {
        Separator::BranchMarker
    } else if a == SegmentKind::WorkingDirectory && b == SegmentKind::GitBranchStatus {
        Separator::Space
    } else if is_indicator(a) && is_indicator(b) {
        Separator::Dot
    } else if is_location(a) && is_location(b) {
        Separator::Dot
    } else if a == SegmentKind::DateTime && b == SegmentKind::DateTime {
        Separator::Dot
    } else if a == SegmentKind::ShellMode || b == SegmentKind::ShellMode {
        Separator::Dot
    } else {
        Separator::Pipe
    }
}

/// The characters of a separator.
pub open spec fn separator_chars(s: Separator) -> Seq<char> {
    match s {
        Separator::Space => " "@,
        Separator::BranchMarker => " ↬ "@,
        Separator::Dot => " • "@,
        Separator::Pipe => " | "@,
    }
}

/// The text of a separator.
pub fn separator_text(s: Separator) -> (r: &'static str)
    ensures
        r@ == separator_chars(s),
{
    match s {
        Separator::Space => " ",
        Separator::BranchMarker => " ↬ ",
        Separator::Dot => " • ",
        Separator::Pipe => " | ",
    }
}

impl FooterSegment {
    /// The kind of this segment.
    pub fn kind(&self) -> (k: SegmentKind)
        ensures
            k == segment_kind(*self),
    {
        match self {
            FooterSegment::Vim(_) => SegmentKind::Vim,
            FooterSegment::ShellMode => SegmentKind::ShellMode,
            FooterSegment::ActiveIndicator(_) => SegmentKind::ActiveIndicator,
            FooterSegment::AutoApproveIndicator(_) => SegmentKind::AutoApproveIndicator,
            FooterSegment::Model(_) => SegmentKind::Model,
            FooterSegment::WorkingDirectory(_) => SegmentKind::WorkingDirectory,
            FooterSegment::GitBranch(_) => SegmentKind::GitBranch,
            FooterSegment::GitBranchStatus(_) => SegmentKind::GitBranchStatus,
            FooterSegment::ContextWindowUsage(_) => SegmentKind::ContextWindowUsage,
            FooterSegment::GitDiff { .. } => SegmentKind::GitDiff,
            FooterSegment::DateTime(_) => SegmentKind::DateTime,
            FooterSegment::AgentTodoList(_) => SegmentKind::AgentTodoList,
            FooterSegment::GitHubPullRequest(_) => SegmentKind::GitHubPullRequest,
        }
    }

    /// Two-tier separator: `" • "` joins segments within one group (the
    /// working-directory/branch pair, date/time items, consecutive active
    /// indicators, anything touching shell mode), `" | "` joins segments of
    /// different groups, with the dedicated space and `↬` joins first.
    pub fn separator_to(&self, next: &Self) -> (s: Separator)
        ensures
            s == separator_between(segment_kind(*self), segment_kind(*next)),
    {
        let a = self.kind();
        let b = next.kind();
        match (a, b) {
            (SegmentKind::Vim, SegmentKind::ShellMode) | (SegmentKind::Vim, SegmentKind::Model) => {
                Separator::Space
            },
            (SegmentKind::ShellMode, SegmentKind::WorkingDirectory) => Separator::Space,
            (SegmentKind::WorkingDirectory, SegmentKind::GitBranch) => Separator::BranchMarker,
            (SegmentKind::WorkingDirectory, SegmentKind::GitBranchStatus) => Separator::Space,
            (
                SegmentKind::ActiveIndicator | SegmentKind::AutoApproveIndicator,
                SegmentKind::ActiveIndicator | SegmentKind::AutoApproveIndicator,
            ) => Separator::Dot,
            (
                SegmentKind::WorkingDirectory | SegmentKind::GitBranch
                | SegmentKind::GitBranchStatus,
                SegmentKind::WorkingDirectory | SegmentKind::GitBranch
                | SegmentKind::GitBranchStatus,
            ) => Separator::Dot,
            (SegmentKind::DateTime, SegmentKind::DateTime) => Separator::Dot,
            (SegmentKind::ShellMode, _) | (_, SegmentKind::ShellMode) => Separator::Dot,
            _ => Separator::Pipe,
        }
    }
}


/// The spans of the git-diff item: the file count always leads, then the
/// line counts when there are any.
pub open spec fn git_diff_spans(files: nat, additions: nat, deletions: nat) -> Seq<SpanView> {
    seq![plain("☰ "@ + decimal(files), StyleRole::Muted)] + (if additions > 0 || deletions > 0 {
        seq![plain(" •"@, StyleRole::Muted)]
    } else {
        Seq::empty()
    }) + (if additions > 0 {
        seq![plain(" +"@ + decimal(additions), StyleRole::DiffAdded)]
    } else {
        Seq::empty()
    }) + (if deletions > 0 {
        seq![plain(" "@, StyleRole::Muted), plain("-"@ + decimal(deletions), StyleRole::DiffRemoved)]
    } else {
        Seq::empty()
    })
}

/// The spans one segment renders as, without any separator.
pub open spec fn segment_spans(s: FooterSegment) -> Seq<SpanView> {
    match s {
        FooterSegment::Vim(label) => seq![plain(label@, StyleRole::AccentBorder)],
        FooterSegment::ShellMode => seq![plain(SHELL_MODE_HINT@, StyleRole::ShellCommandAccent)],
        FooterSegment::ActiveIndicator(label) => seq![plain(label@, StyleRole::SuccessGlyph)],
        FooterSegment::WorkingDirectory(text) => seq![plain(text@, StyleRole::Muted)],
        FooterSegment::GitBranch(text) => seq![plain(text@, StyleRole::Muted)],
        FooterSegment::GitDiff { files_changed, additions, deletions } => git_diff_spans(
            files_changed as nat,
            additions as nat,
            deletions as nat,
        ),
        FooterSegment::AutoApproveIndicator(v) => spans_view(v@),
        FooterSegment::Model(v) => spans_view(v@),
        FooterSegment::GitBranchStatus(v) => spans_view(v@),
        FooterSegment::ContextWindowUsage(v) => spans_view(v@),
        FooterSegment::DateTime(v) => spans_view(v@),
        FooterSegment::AgentTodoList(v) => spans_view(v@),
        FooterSegment::GitHubPullRequest(v) => spans_view(v@),
    }
}

/// A segment as the row sees it: its kind and its spans.
pub type SegmentView = (SegmentKind, Seq<SpanView>);

pub open spec fn segment_view(s: FooterSegment) -> SegmentView {
    (segment_kind(s), segment_spans(s))
}

/// Segment `j` followed by its muted separator when a segment comes after it.
pub open spec fn row_piece(segs: Seq<SegmentView>, j: int) -> Seq<SpanView> {
    segs[j].1 + if j + 1 < segs.len() {
        seq![plain(separator_chars(separator_between(segs[j].0, segs[j + 1].0)), StyleRole::Muted)]
    } else {
        Seq::empty()
    }
}

/// The spans of the first `i` pieces of the row.
pub open spec fn row_prefix(segs: Seq<SegmentView>, i: nat) -> Seq<SpanView>
    decreases i,
{
    if i == 0 {
        Seq::empty()
    } else {
        row_prefix(segs, (i - 1) as nat) + row_piece(segs, i - 1)
    }
}

/// The status row for segments given by their views.
pub open spec fn row_of(segs: Seq<SegmentView>) -> Seq<SpanView> {
    row_prefix(segs, segs.len())
}

/// The whole status row for `segs`.
pub open spec fn status_row(segs: Seq<FooterSegment>) -> Seq<SpanView> {
    row_of(segs.map_values(|s: FooterSegment| segment_view(s)))
}

/// Resolved segments for the footer's left-aligned status row.
pub struct FooterSegments {
    pub ordered: Vec<FooterSegment>,
}

/// Spans of the git-diff item (`☰ 6 • +31 -12`).
pub fn git_diff_status_spans(files_changed: usize, additions: usize, deletions: usize) -> (r: Vec<
    StyledSpan,
>)
    ensures
        spans_view(r@) == git_diff_spans(files_changed as nat, additions as nat, deletions as nat),
{
    let mut out: Vec<StyledSpan> = Vec::new();
    let mut files = owned("☰ ");
    push_decimal(&mut files, files_changed as u64);
    out.push(span(files, StyleRole::Muted));
    if additions > 0 || deletions > 0 {
        out.push(span(owned(" •"), StyleRole::Muted));
    }
    if additions > 0 {
        let mut added = owned(" +");
        push_decimal(&mut added, additions as u64);
        out.push(span(added, StyleRole::DiffAdded));
    }
    if deletions > 0 {
        out.push(span(owned(" "), StyleRole::Muted));
        let mut removed = owned("-");
        push_decimal(&mut removed, deletions as u64);
        out.push(span(removed, StyleRole::DiffRemoved));
    }
    assert(spans_view(out@) =~= git_diff_spans(
        files_changed as nat,
        additions as nat,
        deletions as nat,
    ));
    out
}

fn segment_into_spans(seg: FooterSegment) -> (r: Vec<StyledSpan>)
    ensures
        spans_view(r@) == segment_spans(seg),
{
    match seg {
        FooterSegment::Vim(label) => {
            let out = vec![span(label, StyleRole::AccentBorder)];
            assert(spans_view(out@) =~= segment_spans(seg));
            out
        },
        FooterSegment::ShellMode => {
            let out = vec![span(owned(SHELL_MODE_HINT), StyleRole::ShellCommandAccent)];
            assert(spans_view(out@) =~= segment_spans(seg));
            out
        },
        FooterSegment::ActiveIndicator(label) => {
            let out = vec![span(label, StyleRole::SuccessGlyph)];
            assert(spans_view(out@) =~= segment_spans(seg));
            out
        },
        FooterSegment::WorkingDirectory(text) => {
            let out = vec![span(text, StyleRole::Muted)];
            assert(spans_view(out@) =~= segment_spans(seg));
            out
        },
        FooterSegment::GitBranch(text) => {
            let out = vec![span(text, StyleRole::Muted)];
            assert(spans_view(out@) =~= segment_spans(seg));
            out
        },
        FooterSegment::GitDiff { files_changed, additions, deletions } => {
            git_diff_status_spans(files_changed, additions, deletions)
        },
        FooterSegment::AutoApproveIndicator(v) => v,
        FooterSegment::Model(v) => v,
        FooterSegment::GitBranchStatus(v) => v,
        FooterSegment::ContextWindowUsage(v) => v,
        FooterSegment::DateTime(v) => v,
        FooterSegment::AgentTodoList(v) => v,
        FooterSegment::GitHubPullRequest(v) => v,
    }
}

/// Builds the status row from resolved segments: each segment's spans, a
/// muted separator between adjacent segments, none before the first or after
/// the last. An empty row renders no spans at all.
pub fn render_status_footer_row(segments: FooterSegments) -> (r: Vec<StyledSpan>)
    ensures
        spans_view(r@) == status_row(segments.ordered@),
{
    let ghost segs = segments.ordered@;
    let ghost views = segs.map_values(|s: FooterSegment| segment_view(s));
    let mut rest = segments.ordered;
    let mut out: Vec<StyledSpan> = Vec::new();
    let ghost mut i: nat = 0;
    while rest.len() > 0
        invariant
            i <= segs.len(),
            rest@ == segs.subrange(i as int, segs.len() as int),
            views == segs.map_values(|s: FooterSegment| segment_view(s)),
            spans_view(out@) == row_prefix(views, i),
        decreases rest.len(),
    {
        let seg = rest.remove(0);
        assert(seg == segs[i as int]);
        let separator = if rest.len() > 0 {
            assert(rest@[0] == segs[i + 1 as int]);
            Some(seg.separator_to(&rest[0]))
        } else {
            None
        };
        let mut pieces = segment_into_spans(seg);
        let ghost before = out@;
        out.append(&mut pieces);
        if let Some(sep) = separator {
            out.push(span(owned(separator_text(sep)), StyleRole::Muted));
        }
        proof {
            assert(views[i as int] == segment_view(segs[i as int]));
            if i + 1 < segs.len() {
                assert(views[i + 1 as int] == segment_view(segs[i + 1 as int]));
            }
            assert(spans_view(out@) =~= row_prefix(views, i) + row_piece(views, i as int));
            i = i + 1;
        }
    }
    assert(i == segs.len());
    out
}

} // verus!
