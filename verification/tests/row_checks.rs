use warp_tui::footer_row::{render_status_footer_row, FooterSegment, FooterSegments};
use warp_tui::hints::CTRL_C_EXIT_HINT;
use warp_tui::text::{join_spans, StyleRole, StyledSpan};
use warp_tui::row_checks::{assert_footer_segments_absent, first_visible_column, join_rows, str_contains};

#[test]
fn first_visible_column_skips_leading_whitespace() {
    assert_eq!(first_visible_column("   > hello"), 3);
    assert_eq!(first_visible_column("x"), 0);
    assert_eq!(first_visible_column("\t\u{3000}é"), 2);
}

#[test]
fn replacing_hint_rows_hold_no_footer_sections() {
    assert!(assert_footer_segments_absent(&["ctrl-c again to exit".to_owned()]));
    assert!(!assert_footer_segments_absent(&["~/warp ↬ main".to_owned()]));
    assert!(!assert_footer_segments_absent(&["model │ 12 credits".to_owned()]));
    assert!(!assert_footer_segments_absent(&["a".to_owned(), "3 credits".to_owned()]));
    assert!(assert_footer_segments_absent(&[]));
    assert!(!assert_footer_segments_absent(&["TestModel | /tmp/warp".to_owned()]));
    assert!(!assert_footer_segments_absent(&["▶▶ • Queued".to_owned()]));
    assert!(!assert_footer_segments_absent(&["43% context".to_owned()]));
    assert!(assert_footer_segments_absent(&["Settings failed to load: invalid values.".to_owned()]));
}

#[test]
fn rendered_status_rows_are_recognised_as_sections() {
    let row = join_spans(&render_status_footer_row(FooterSegments {
        ordered: vec![FooterSegment::Model(vec![StyledSpan { text: "m".to_owned(), role: StyleRole::Muted, bold: false }]),
            FooterSegment::WorkingDirectory("/tmp".to_owned())],
    }));
    assert!(!assert_footer_segments_absent(&[row]));
    let hint = join_spans(&render_footer_hint_only());
    assert!(assert_footer_segments_absent(&[hint]));
}

fn render_footer_hint_only() -> Vec<StyledSpan> {
    vec![StyledSpan { text: CTRL_C_EXIT_HINT.to_owned(), role: StyleRole::Muted, bold: false }]
}

#[test]
fn rows_join_with_newlines_and_patterns_are_found() {
    assert_eq!(join_rows(&["a".to_owned(), "b".to_owned(), "".to_owned()]), "a\nb\n");
    assert!(str_contains("abc", "bc"));
    assert!(str_contains("abc", ""));
    assert!(!str_contains("ab", "abc"));
    assert!(!str_contains("a\nb", "ab"));
}
