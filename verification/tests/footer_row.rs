use warp_tui::footer_row::{
    git_diff_status_spans, render_status_footer_row, FooterSegment, FooterSegments, Separator, SegmentKind,
};
use warp_tui::text::{join_spans, StyleRole, StyledSpan};

fn text(s: &str) -> Vec<StyledSpan> {
    vec![StyledSpan { text: s.to_owned(), role: StyleRole::Muted, bold: false }]
}

fn row(ordered: Vec<FooterSegment>) -> String {
    join_spans(&render_status_footer_row(FooterSegments { ordered }))
}

#[test]
fn footer_supports_arbitrary_order_and_figma_group_dividers() {
    assert_eq!(
        row(vec![
            FooterSegment::ContextWindowUsage(text("43% context")),
            FooterSegment::GitBranch("feature/statusline".to_owned()),
            FooterSegment::ActiveIndicator("Auto-queue".to_owned()),
            FooterSegment::WorkingDirectory("/tmp/warp".to_owned()),
            FooterSegment::DateTime(text("July 20, 2026")),
        ]),
        "43% context | feature/statusline | Auto-queue | /tmp/warp | July 20, 2026"
    );
    assert_eq!(row(vec![FooterSegment::GitBranch("main".to_owned())]), "main");
}

#[test]
fn footer_uses_pipes_between_figma_groups_and_preserves_within_group_separators() {
    assert_eq!(
        row(vec![
            FooterSegment::AutoApproveIndicator(text("▶▶")),
            FooterSegment::ActiveIndicator("Auto-queue".to_owned()),
            FooterSegment::Model(text("model")),
            FooterSegment::WorkingDirectory("/tmp/warp".to_owned()),
            FooterSegment::GitBranch("main".to_owned()),
            FooterSegment::GitDiff { files_changed: 6, additions: 31, deletions: 12 },
            FooterSegment::GitHubPullRequest(text("PR #123")),
            FooterSegment::ContextWindowUsage(text("43% context")),
            FooterSegment::DateTime(text("July 20, 2026")),
            FooterSegment::DateTime(text("1:08pm")),
            FooterSegment::AgentTodoList(text("❒ 1/10")),
        ]),
        "▶▶ • Auto-queue | model | /tmp/warp ↬ main | ☰ 6 • +31 -12 | PR #123 | 43% context | July 20, 2026 • 1:08pm | ❒ 1/10"
    );
}

#[test]
fn empty_configurable_footer_has_zero_height() {
    assert!(render_status_footer_row(FooterSegments { ordered: Vec::new() }).is_empty());
}

#[test]
fn shell_mode_label_joins_vim_and_directory_with_spaces() {
    assert_eq!(
        row(vec![
            FooterSegment::Vim("NOR".to_owned()),
            FooterSegment::ShellMode,
            FooterSegment::WorkingDirectory("~/warp".to_owned()),
            FooterSegment::GitBranchStatus(text("⊢ main")),
        ]),
        "NOR shell mode ~/warp ⊢ main"
    );
    assert_eq!(
        row(vec![FooterSegment::Vim("INS".to_owned()), FooterSegment::Model(text("gpt"))]),
        "INS gpt"
    );
    assert_eq!(
        row(vec![FooterSegment::ShellMode, FooterSegment::DateTime(text("13:08"))]),
        "shell mode • 13:08"
    );
}

#[test]
fn separators_are_muted_spans_between_segments() {
    let spans = render_status_footer_row(FooterSegments {
        ordered: vec![FooterSegment::Model(text("m")), FooterSegment::DateTime(text("d"))],
    });
    assert_eq!(spans.len(), 3);
    assert_eq!(spans[1].text, " | ");
    assert_eq!(spans[1].role, StyleRole::Muted);
}

#[test]
fn separator_rules_follow_the_groups() {
    let wd = FooterSegment::WorkingDirectory("/".to_owned());
    let branch = FooterSegment::GitBranch("main".to_owned());
    assert_eq!(wd.separator_to(&branch), Separator::BranchMarker);
    assert_eq!(branch.separator_to(&FooterSegment::GitDiff { files_changed: 1, additions: 0, deletions: 0 }), Separator::Pipe);
    assert_eq!(
        FooterSegment::ActiveIndicator("a".to_owned()).separator_to(&FooterSegment::AutoApproveIndicator(text("b"))),
        Separator::Dot
    );
    assert_eq!(wd.kind(), SegmentKind::WorkingDirectory);
}

#[test]
fn git_diff_status_matches_figma_file_count_content_and_styles() {
    let spans = git_diff_status_spans(6, 31, 12);
    assert_eq!(join_spans(&spans), "☰ 6 • +31 -12");
    assert_eq!(spans[0].role, StyleRole::Muted);
    let plus = spans.iter().find(|s| s.text.starts_with(" +")).expect("addition span");
    assert_eq!(plus.role, StyleRole::DiffAdded);
    let minus = spans.iter().find(|s| s.text.starts_with('-')).expect("deletion span");
    assert_eq!(minus.role, StyleRole::DiffRemoved);
    assert_eq!(join_spans(&git_diff_status_spans(1, 0, 0)), "☰ 1");
    assert_eq!(join_spans(&git_diff_status_spans(2, 0, 5)), "☰ 2 • -5");
}
