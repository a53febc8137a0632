//! The `/status` read-only menu: session fields as labelled rows.
use vstd::prelude::*;
use vstd::string::*;
use crate::text::{StyleRole, StyledSpan, SpanView, spans_view, plain, owned, span, push_char};

verus! {

/// Shown for a field with nothing to report.
pub const STATUS_UNAVAILABLE: &'static str = "\u{2014}";
pub const STATUS_UNTITLED_SESSION: &'static str = "Untitled";
pub const STATUS_DEV_BUILD: &'static str = "dev build";
/// Width the labels are padded to.
pub const STATUS_LABEL_WIDTH: usize = 19;

/// One row of a read-only menu.
#[derive(Debug, PartialEq, Eq)]
pub struct ReadOnlyMenuRow {
    pub spans: Vec<StyledSpan>,
}

/// A titled group of rows.
#[derive(Debug, PartialEq, Eq)]
pub struct ReadOnlyMenuSection {
    pub title: String,
    pub rows: Vec<ReadOnlyMenuRow>,
}

/// The shared read-only menu shown above the input.
#[derive(Debug, PartialEq, Eq)]
pub struct ReadOnlyMenu {
    pub sections: Vec<ReadOnlyMenuSection>,
}

pub open spec fn rows_view(rows: Seq<ReadOnlyMenuRow>) -> Seq<Seq<SpanView>> {
    rows.map_values(|r: ReadOnlyMenuRow| spans_view(r.spans@))
}

/// Session information displayed by the `/status` menu.
#[derive(Debug, PartialEq, Eq)]
pub struct StatusInfo {
    pub version: String,
    pub session: String,
    pub conversation_id: String,
    pub working_directory: String,
}

/// `label` left-aligned in a field of `width` characters.
pub open spec fn pad_right(label: Seq<char>, width: nat) -> Seq<char> {
    if label.len() >= width {
        label
    } else {
        label + Seq::new((width - label.len()) as nat, |_i: int| ' ')
    }
}

/// A row showing `label` padded to the label column, then `value`.
pub open spec fn field_row_view(label: Seq<char>, value: Seq<char>) -> Seq<SpanView> {
    seq![
        plain(pad_right(label, STATUS_LABEL_WIDTH as nat), StyleRole::ReadOnlyMenuLabel),
        plain(value, StyleRole::Primary),
    ]
}

/// `label` padded with spaces to `width` characters.
pub fn pad_label(label: &str, width: usize) -> (r: String)
    ensures
        r@ == pad_right(label@, width as nat),
{
    let mut out = owned(label);
    let n = label.unicode_len();
    if n < width {
        let mut k: usize = n;
        while k < width
            invariant
                n <= k <= width,
                n == label@.len(),
                out@ == label@ + Seq::new((k - n) as nat, |_i: int| ' '),
            decreases width - k,
        {
            push_char(&mut out, ' ');
            k = k + 1;
            assert(out@ =~= label@ + Seq::new((k - n) as nat, |_i: int| ' '));
        }
    }
    out
}

/// One labelled row of the status menu.
pub fn field_row(label: &str, value: &str) -> (r: ReadOnlyMenuRow)
    ensures
        spans_view(r.spans@) == field_row_view(label@, value@),
{
    let spans = vec![
        span(pad_label(label, STATUS_LABEL_WIDTH), StyleRole::ReadOnlyMenuLabel),
        span(owned(value), StyleRole::Primary),
    ];
    assert(spans_view(spans@) =~= field_row_view(label@, value@));
    ReadOnlyMenuRow { spans }
}

/// The rows of the status menu, in order.
pub open spec fn status_rows(info: StatusInfo) -> Seq<Seq<SpanView>> {
    seq![
        field_row_view("Version"@, info.version@),
        field_row_view("Session"@, info.session@),
        field_row_view("Conversation ID"@, info.conversation_id@),
        field_row_view("Working directory"@, info.working_directory@),
    ]
}

/// Builds the status menu opened by `/status`: one section titled `Status`
/// with the version, session, conversation and working-directory rows, and
/// no account rows.
pub fn menu(status_info: StatusInfo) -> (r: ReadOnlyMenu)
    ensures
        r.sections@.len() == 1,
        r.sections@[0].title@ == "Status"@,
        rows_view(r.sections@[0].rows@) == status_rows(status_info),
{
    let rows = vec![
        field_row("Version", status_info.version.as_str()),
        field_row("Session", status_info.session.as_str()),
        field_row("Conversation ID", status_info.conversation_id.as_str()),
        field_row("Working directory", status_info.working_directory.as_str()),
    ];
    assert(rows_view(rows@) =~= status_rows(status_info));
    ReadOnlyMenu { sections: vec![ReadOnlyMenuSection { title: owned("Status"), rows }] }
}

/// The selected conversation's id, or `None`.
pub fn format_status_conversation_id(conversation_id: Option<&str>) -> (r: String)
    ensures
        conversation_id is Some ==> r@ == conversation_id->0@,
        conversation_id is None ==> r@ == "None"@,
{
    match conversation_id {
        Some(id) => owned(id),
        None => owned("None"),
    }
}

pub open spec fn or_fallback(value: Option<String>, fallback: Seq<char>) -> Seq<char> {
    match value {
        Some(v) => v@,
        None => fallback,
    }
}

/// The status menu's content from live session data. The working directory
/// is the session's (falling back to the process's) with the home prefix
/// already abbreviated. There is no cloud account, so no account fields.
pub fn compute_status_info(
    app_version: Option<String>,
    conversation_title: Option<String>,
    conversation_id: Option<&str>,
    session_working_directory: Option<String>,
    process_working_directory: Option<String>,
) -> (r: StatusInfo)
    ensures
        r.version@ == or_fallback(app_version, STATUS_DEV_BUILD@),
        r.session@ == or_fallback(conversation_title, STATUS_UNTITLED_SESSION@),
        conversation_id is Some ==> r.conversation_id@ == conversation_id->0@,
        conversation_id is None ==> r.conversation_id@ == "None"@,
        r.working_directory@ == match session_working_directory {
            Some(d) => d@,
            None => or_fallback(process_working_directory, STATUS_UNAVAILABLE@),
        },
{
    let version = match app_version {
        Some(v) => v,
        None => owned(STATUS_DEV_BUILD),
    };
    let session = match conversation_title {
        Some(t) => t,
        None => owned(STATUS_UNTITLED_SESSION),
    };
    let working_directory = match session_working_directory {
        Some(d) => d,
        None => match process_working_directory {
            Some(d) => d,
            None => owned(STATUS_UNAVAILABLE),
        },
    };
    StatusInfo {
        version,
        session,
        conversation_id: format_status_conversation_id(conversation_id),
        working_directory,
    }
}

} // verus!
