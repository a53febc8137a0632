//! Inspection of rendered rows: where a row's visible content starts, and
//! whether a footer row still shows any of its statusline sections.
use vstd::prelude::*;
use vstd::string::*;
use crate::text::{is_whitespace, char_is_whitespace};

verus! {

/// The index of the first character of `line` that is not whitespace.
pub fn first_visible_column(line: &str) -> (r: usize)
    requires
        exists|i: int| 0 <= i < line@.len() && !is_whitespace(#[trigger] line@[i]),
    ensures
        r < line@.len(),
        !is_whitespace(line@[r as int]),
        forall|j: int| 0 <= j < r ==> is_whitespace(#[trigger] line@[j]),
{
    let n = line.unicode_len();
    let mut i: usize = 0;
    while i < n
        invariant
            n == line@.len(),
            i <= n,
            forall|j: int| 0 <= j < i ==> is_whitespace(#[trigger] line@[j]),
            exists|k: int| 0 <= k < line@.len() && !is_whitespace(#[trigger] line@[k]),
        decreases n - i,
    {
        if !char_is_whitespace(line.get_char(i)) {
            return i;
        }
        i = i + 1;
    }
    proof {
        let k = choose|k: int| 0 <= k < line@.len() && !is_whitespace(#[trigger] line@[k]);
        assert(is_whitespace(line@[k]));
    }
    0
}

/// Whether `pattern` occurs in `text`.
pub open spec fn occurs_in(text: Seq<char>, pattern: Seq<char>) -> bool {
    exists|i: int| 0 <= i && i + pattern.len() <= text.len() && #[trigger] text.subrange(i, i + pattern.len()) == pattern
}

/// Whether `pattern` occurs in `text`.
pub fn str_contains(text: &str, pattern: &str) -> (r: bool)
    ensures
        r == occurs_in(text@, pattern@),
{
    let n = text.unicode_len();
    let m = pattern.unicode_len();
    if m > n {
        return false;
    }
    if m == 0 {
        assert(text@.subrange(0, 0int + pattern@.len()) =~= pattern@);
        return true;
    }
    let mut i: usize = 0;
    while i <= n - m
        invariant
            n == text@.len(),
            m == pattern@.len(),
            1 <= m <= n,
            i <= n - m + 1,
            forall|j: int| 0 <= j < i ==> #[trigger] text@.subrange(j, j + m) != pattern@,
        decreases n - m + 1 - i,
    {
        let mut k: usize = 0;
        let mut same = true;
        while k < m
            invariant
                n == text@.len(),
                m == pattern@.len(),
                i + m <= n,
                k <= m,
                same ==> forall|q: int| 0 <= q < k ==> text@[i + q] == pattern@[q],
                !same ==> text@.subrange(i as int, i + m) != pattern@,
            decreases m - k,
        {
            if same && text.get_char(i + k) != pattern.get_char(k) {
                same = false;
                assert(text@.subrange(i as int, i + m)[k as int] != pattern@[k as int]);
            }
            k = k + 1;
        }
        if same {
            assert(text@.subrange(i as int, i + pattern@.len()) =~= pattern@);
            return true;
        }
        i = i + 1;
    }
    proof {
        assert forall|j: int| 0 <= j && j + m <= n implies #[trigger] text@.subrange(j, j + m)
            != pattern@ by {
            assert(j < i);
        }
    }
    false
}

/// The rows of a rendering, joined by newlines.
pub open spec fn joined_rows(rows: Seq<Seq<char>>) -> Seq<char>
    decreases rows.len(),
{
    if rows.len() == 0 {
        Seq::empty()
    } else if rows.len() == 1 {
        rows[0]
    } else {
        joined_rows(rows.drop_last()) + "\n"@ + rows.last()
    }
}

pub open spec fn row_views(rows: Seq<String>) -> Seq<Seq<char>> {
    rows.map_values(|s: String| s@)
}

/// The rows joined by newlines.
pub fn join_rows(rows: &[String]) -> (r: String)
    ensures
        r@ == joined_rows(row_views(rows@)),
{
    let mut out = String::new();
    let mut i: usize = 0;
    while i < rows.len()
        invariant
            i <= rows@.len(),
            out@ == joined_rows(row_views(rows@.subrange(0, i as int))),
        decreases rows.len() - i,
    {
        let ghost before = rows@.subrange(0, i as int);
        let ghost after = rows@.subrange(0, i + 1);
        proof {
            assert(row_views(after).drop_last() =~= row_views(before));
            assert(row_views(after).last() == rows@[i as int]@);
        }
        if i > 0 {
            out.append("\n");
        }
        out.append(rows[i].as_str());
        proof {
            if i == 0 {
                assert(row_views(after) =~= seq![rows@[0]@]);
                assert(out@ =~= rows@[0]@);
            }
        }
        i = i + 1;
    }
    assert(rows@.subrange(0, rows@.len() as int) =~= rows@);
    out
}

/// The box-drawing bar between footer sections.
pub const FOOTER_SECTION_BAR: &'static str = "\u{2502}";
/// The separator between footer groups.
pub const FOOTER_GROUP_SEPARATOR: &'static str = " | ";
/// The separator between items of one footer group.
pub const FOOTER_ITEM_SEPARATOR: &'static str = " \u{2022} ";
/// The arrow between the working directory and its branch.
pub const FOOTER_BRANCH_MARKER: &'static str = " \u{21ac} ";
/// The usage section's figures: credits, and the context-window share.
pub const FOOTER_CREDITS_WORD: &'static str = "credits";
pub const FOOTER_CONTEXT_USAGE: &'static str = "% context";

/// The texts that mark a footer section: its separators, the branch arrow,
/// and the usage figures.
pub open spec fn footer_section_marks() -> Seq<Seq<char>> {
    seq![
        FOOTER_SECTION_BAR@,
        FOOTER_GROUP_SEPARATOR@,
        FOOTER_ITEM_SEPARATOR@,
        FOOTER_BRANCH_MARKER@,
        FOOTER_CREDITS_WORD@,
        FOOTER_CONTEXT_USAGE@,
    ]
}

/// Whether the rendered rows hold none of the footer's sections, as when a
/// hint takes the whole footer row: no section separator, no branch arrow
/// and no usage text.
pub fn assert_footer_segments_absent(lines: &[String]) -> (r: bool)
    ensures
        r == forall|i: int|
            0 <= i < footer_section_marks().len() ==> !occurs_in(
                joined_rows(row_views(lines@)),
                #[trigger] footer_section_marks()[i],
            ),
{
    let row = join_rows(lines);
    let a = str_contains(row.as_str(), FOOTER_SECTION_BAR);
    let b = str_contains(row.as_str(), FOOTER_GROUP_SEPARATOR);
    let c = str_contains(row.as_str(), FOOTER_ITEM_SEPARATOR);
    let d = str_contains(row.as_str(), FOOTER_BRANCH_MARKER);
    let e = str_contains(row.as_str(), FOOTER_CREDITS_WORD);
    let f = str_contains(row.as_str(), FOOTER_CONTEXT_USAGE);
    proof {
        let marks = footer_section_marks();
        assert(marks[0] == FOOTER_SECTION_BAR@);
        assert(marks[1] == FOOTER_GROUP_SEPARATOR@);
        assert(marks[2] == FOOTER_ITEM_SEPARATOR@);
        assert(marks[3] == FOOTER_BRANCH_MARKER@);
        assert(marks[4] == FOOTER_CREDITS_WORD@);
        assert(marks[5] == FOOTER_CONTEXT_USAGE@);
    }
    !a && !b && !c && !d && !e && !f
}

} // verus!
