//! Tab-completion coordination for the composer: who owns a Tab press, the
//! request generation that detects stale results, and how a completer
//! decision becomes an edit of the input or an open popup.
use vstd::prelude::*;
use vstd::string::*;

verus! {

/// Length in bytes of the UTF-8 encoding of `s`.
pub open spec fn utf8_len(s: Seq<char>) -> nat {
    vstd::utf8::encode_utf8(s).len()
}

/// The composer's buffer and cursor when a completion was requested.
#[derive(Debug, PartialEq, Eq)]
pub struct CompletionInputSnapshot {
    pub buffer_text: String,
    pub cursor_byte_offset: usize,
}

impl View for CompletionInputSnapshot {
    type V = (Seq<char>, usize);

    open spec fn view(&self) -> (Seq<char>, usize) {
        (self.buffer_text@, self.cursor_byte_offset)
    }
}

/// A snapshot of `buffer_text` with the cursor at `cursor_byte_offset`.
pub fn snapshot(buffer_text: &str, cursor_byte_offset: usize) -> (r: CompletionInputSnapshot)
    ensures
        r@ == (buffer_text@, cursor_byte_offset),
{
    CompletionInputSnapshot { buffer_text: buffer_text.to_owned(), cursor_byte_offset }
}

impl CompletionInputSnapshot {
    /// An equal copy.
    pub fn duplicate(&self) -> (r: Self)
        ensures
            r@ == self@,
    {
        CompletionInputSnapshot {
            buffer_text: self.buffer_text.clone(),
            cursor_byte_offset: self.cursor_byte_offset,
        }
    }

    /// Whether both snapshots hold the same buffer and cursor.
    pub fn same_as(&self, other: &Self) -> (r: bool)
        ensures
            r == (self@ == other@),
    {
        self.cursor_byte_offset == other.cursor_byte_offset && self.buffer_text == other.buffer_text
    }

    /// Whether the cursor sits at the end of the buffer.
    pub fn cursor_at_end(&self) -> (r: bool)
        ensures
            r == (self.cursor_byte_offset == utf8_len(self.buffer_text@) as usize),
    {
        self.cursor_byte_offset == self.buffer_text.as_str().len()
    }
}

pub open spec fn opt_snapshot_view(o: Option<CompletionInputSnapshot>) -> Option<(Seq<char>, usize)> {
    match o {
        Some(s) => Some(s@),
        None => None,
    }
}

/// What a Tab press does, given what is already on screen.
#[derive(Clone, Copy, Debug, PartialEq, Eq, Structural)]
pub enum ShellCompletionTabAction {
    /// Nothing owns Tab: fetch candidates for the token under the cursor.
    RequestCandidates,
    /// The completions popup is already open: advance to the next candidate.
    CycleCandidates,
    /// A different inline menu is open, so Tab belongs to it and is swallowed.
    ConsumedByOpenInlineMenu,
}

/// Resolves Tab's owner: the open completions popup first, then any other
/// open inline menu, and otherwise a new completion request.
pub fn shell_completion_tab_action(completions_menu_is_open: bool, other_inline_menu_is_open: bool) -> (r:
    ShellCompletionTabAction)
    ensures
        completions_menu_is_open ==> r == ShellCompletionTabAction::CycleCandidates,
        !completions_menu_is_open && other_inline_menu_is_open ==> r
            == ShellCompletionTabAction::ConsumedByOpenInlineMenu,
        !completions_menu_is_open && !other_inline_menu_is_open ==> r
            == ShellCompletionTabAction::RequestCandidates,
{
    if completions_menu_is_open {
        ShellCompletionTabAction::CycleCandidates
    } else if other_inline_menu_is_open {
        ShellCompletionTabAction::ConsumedByOpenInlineMenu
    } else {
        ShellCompletionTabAction::RequestCandidates
    }
}

/// The state a completion request was issued in.
#[derive(Debug, PartialEq, Eq)]
pub struct CompletionRequestSnapshot {
    pub input: CompletionInputSnapshot,
    pub session_id: u64,
    pub current_working_directory: String,
    pub generation: u64,
}

/// A request's results still apply only when nothing it was issued against
/// has changed: the generation, the input, the session, the working
/// directory, and no inline menu having opened meanwhile.
pub open spec fn request_is_current(
    request: CompletionRequestSnapshot,
    current_generation: u64,
    current_input: Option<(Seq<char>, usize)>,
    current_session_id: Option<u64>,
    current_working_directory: Option<Seq<char>>,
    has_active_inline_menu: bool,
) -> bool {
    &&& current_generation == request.generation
    &&& current_input == Some(request.input@)
    &&& current_session_id == Some(request.session_id)
    &&& current_working_directory == Some(request.current_working_directory@)
    &&& !has_active_inline_menu
}

/// Whether a completion request's results may still be applied.
pub fn completion_request_is_current(
    request: &CompletionRequestSnapshot,
    current_generation: u64,
    current_input: Option<&CompletionInputSnapshot>,
    current_session_id: Option<u64>,
    current_working_directory: Option<&str>,
    has_active_inline_menu: bool,
) -> (r: bool)
    ensures
        r == request_is_current(
            *request,
            current_generation,
            match current_input {
                Some(s) => Some(s@),
                None => None,
            },
            current_session_id,
            match current_working_directory {
                Some(d) => Some(d@),
                None => None,
            },
            has_active_inline_menu,
        ),
{
    if current_generation != request.generation || has_active_inline_menu {
        return false;
    }
    let input_matches = match current_input {
        Some(input) => input.same_as(&request.input),
        None => false,
    };
    let session_matches = match current_session_id {
        Some(id) => id == request.session_id,
        None => false,
    };
    let directory_matches = match current_working_directory {
        Some(dir) => {
            let current: String = dir.to_owned();
            current == request.current_working_directory
        },
        None => false,
    };
    input_matches && session_matches && directory_matches
}

/// The session's bookkeeping for its Tab-completion fetch.
#[derive(Debug, PartialEq, Eq)]
pub struct CompletionRequestState {
    /// Whether a fetch is in flight.
    pub in_flight: bool,
    /// Bumped on every new request and every abort.
    pub generation: u64,
    /// The input an open completions popup was built for.
    pub menu_snapshot: Option<CompletionInputSnapshot>,
}

pub open spec fn next_generation(g: u64) -> u64 {
    if g == u64::MAX { 0 } else { (g + 1) as u64 }
}

impl CompletionRequestState {
    /// No fetch, generation zero, no popup.
    pub fn new() -> (r: Self)
        ensures
            !r.in_flight,
            r.generation == 0,
            r.menu_snapshot is None,
    {
        CompletionRequestState { in_flight: false, generation: 0, menu_snapshot: None }
    }

    /// Aborts any in-flight fetch and forgets the popup's snapshot: the
    /// generation moves on so results already on their way are discarded.
    /// Returns whether a fetch was in flight (the caller aborts it and
    /// dismisses the popup).
    pub fn abort(&mut self) -> (was_in_flight: bool)
        ensures
            was_in_flight == old(self).in_flight,
            !final(self).in_flight,
            final(self).generation == next_generation(old(self).generation),
            final(self).menu_snapshot is None,
    {
        let was_in_flight = self.in_flight;
        self.in_flight = false;
        self.generation = self.generation.wrapping_add(1);
        self.menu_snapshot = None;
        was_in_flight
    }

    /// Starts a new fetch: aborts the previous one, then takes a fresh
    /// generation for the new request, which is returned.
    pub fn begin_request(&mut self) -> (generation: u64)
        ensures
            final(self).in_flight,
            final(self).generation == next_generation(next_generation(old(self).generation)),
            generation == final(self).generation,
            final(self).menu_snapshot is None,
    {
        self.abort();
        self.generation = self.generation.wrapping_add(1);
        self.in_flight = true;
        self.generation
    }

    /// A fetch finished: it is no longer in flight if it was the latest one.
    pub fn finish(&mut self, request_generation: u64)
        ensures
            final(self).generation == old(self).generation,
            final(self).menu_snapshot == old(self).menu_snapshot,
            final(self).in_flight == (old(self).in_flight && old(self).generation
                != request_generation),
    {
        if self.generation == request_generation {
            self.in_flight = false;
        }
    }

    /// Records the input the popup now being shown was built for.
    pub fn show_menu_for(&mut self, input: CompletionInputSnapshot)
        ensures
            final(self).generation == old(self).generation,
            final(self).in_flight == old(self).in_flight,
            final(self).menu_snapshot == Some(input),
    {
        self.menu_snapshot = Some(input);
    }

    /// After an edit or mode switch: whether an open popup still matches the
    /// live buffer. When it does not, the caller aborts.
    pub fn preserves_open_menu(
        &self,
        completions_menu_is_open: bool,
        current_snapshot: Option<&CompletionInputSnapshot>,
    ) -> (r: bool)
        ensures
            r == (completions_menu_is_open && match current_snapshot {
                Some(s) => opt_snapshot_view(self.menu_snapshot) == Some(s@),
                None => self.menu_snapshot is None,
            }),
    {
        if !completions_menu_is_open {
            return false;
        }
        match (current_snapshot, &self.menu_snapshot) {
            (Some(current), Some(menu)) => current.same_as(menu),
            (None, None) => true,
            _ => false,
        }
    }
}

/// An edit of the composer that accepts a completion.
#[derive(Debug, PartialEq, Eq)]
pub struct AcceptedCompletion {
    pub replacement: String,
    pub span_start: usize,
    pub span_end: usize,
    pub append_space: bool,
}

/// Accepting the only candidate: replace its span, and add a space when the
/// cursor was at the end of the buffer and the candidate is not a directory.
pub fn single_candidate_acceptance(
    input: &CompletionInputSnapshot,
    replacement: String,
    span_start: usize,
    span_end: usize,
    is_directory: bool,
) -> (r: AcceptedCompletion)
    ensures
        r.replacement == replacement,
        r.span_start == span_start,
        r.span_end == span_end,
        r.append_space == (input.cursor_byte_offset == utf8_len(input.buffer_text@) as usize
            && !is_directory),
{
    let at_end = input.cursor_at_end();
    AcceptedCompletion { replacement, span_start, span_end, append_space: at_end && !is_directory }
}

/// Inserting a shared prefix of several candidates: never a trailing space.
pub fn common_prefix_acceptance(common_prefix: String, span_start: usize, span_end: usize) -> (r:
    AcceptedCompletion)
    ensures
        r.replacement == common_prefix,
        r.span_start == span_start,
        r.span_end == span_end,
        !r.append_space,
{
    AcceptedCompletion { replacement: common_prefix, span_start, span_end, append_space: false }
}

/// How the popup that lists candidates replaces text: from the replacement
/// span's start to the cursor of the input it was built for, with a space
/// appended on acceptance when that cursor is at the end of the buffer.
pub fn menu_replacement(menu_input: &CompletionInputSnapshot, span_start: usize) -> (r: (
    usize,
    usize,
    bool,
))
    ensures
        r.0 == span_start,
        r.1 == menu_input.cursor_byte_offset,
        r.2 == (menu_input.cursor_byte_offset == utf8_len(menu_input.buffer_text@) as usize),
{
    (span_start, menu_input.cursor_byte_offset, menu_input.cursor_at_end())
}

/// Byte offset of the `k`-th character of `s` in its UTF-8 encoding.
pub open spec fn char_offset(s: Seq<char>, k: int) -> nat {
    utf8_len(s.take(k))
}

/// Whether byte offset `b` of `s`'s encoding falls on a character boundary.
pub open spec fn is_char_offset(s: Seq<char>, b: int) -> bool {
    exists|k: int| 0 <= k <= s.len() && #[trigger] char_offset(s, k) == b
}

proof fn lemma_encode_push(s: Seq<char>, c: char)
    ensures
        vstd::utf8::encode_utf8(s.push(c)) == vstd::utf8::encode_utf8(s) + vstd::utf8::encode_scalar(
            c as u32,
        ),
    decreases s.len(),
{
    if s.len() == 0 {
        assert(s.push(c).drop_first() =~= Seq::<char>::empty());
        assert(vstd::utf8::encode_utf8(Seq::<char>::empty()) =~= Seq::<u8>::empty());
        assert(vstd::utf8::encode_utf8(s.push(c)) =~= vstd::utf8::encode_scalar(c as u32));
    } else {
        lemma_encode_push(s.drop_first(), c);
        assert(s.push(c).drop_first() =~= s.drop_first().push(c));
        assert(s.push(c)[0] == s[0]);
        assert(vstd::utf8::encode_utf8(s.push(c)) =~= vstd::utf8::encode_utf8(s)
            + vstd::utf8::encode_scalar(c as u32));
    }
}

proof fn lemma_scalar_width(c: char)
    ensures
        1 <= vstd::utf8::encode_scalar(c as u32).len() <= 4,
{
    broadcast use vstd::utf8::char_is_scalar;
    assert(vstd::utf8::is_scalar(c as u32));
}

proof fn lemma_offset_step(s: Seq<char>, i: int)
    requires
        0 <= i < s.len(),
    ensures
        char_offset(s, i + 1) == char_offset(s, i) + vstd::utf8::encode_scalar(s[i] as u32).len(),
        char_offset(s, i) < char_offset(s, i + 1),
{
    assert(s.take(i + 1) =~= s.take(i).push(s[i]));
    lemma_encode_push(s.take(i), s[i]);
    lemma_scalar_width(s[i]);
}

proof fn lemma_offset_increasing(s: Seq<char>, j: int, k: int)
    requires
        0 <= j < k <= s.len(),
    ensures
        char_offset(s, j) < char_offset(s, k),
    decreases k - j,
{
    lemma_offset_step(s, k - 1);
    if j < k - 1 {
        lemma_offset_increasing(s, j, k - 1);
    }
}

proof fn lemma_offset_bounded(s: Seq<char>, k: int)
    requires
        0 <= k <= s.len(),
    ensures
        char_offset(s, k) <= utf8_len(s),
{
    assert(s.take(s.len() as int) =~= s);
    if k < s.len() {
        lemma_offset_increasing(s, k, s.len() as int);
    }
}

fn char_width(c: char) -> (w: usize)
    ensures
        w == vstd::utf8::encode_scalar(c as u32).len(),
{
    broadcast use vstd::utf8::char_is_scalar;
    assert(vstd::utf8::is_scalar(c as u32));
    let v = c as u32;
    if v <= 0x7F {
        1
    } else if v <= 0x7FF {
        2
    } else if v <= 0xFFFF {
        3
    } else {
        4
    }
}

/// The text a completer decision replaces: the bytes `span_start..span_end`
/// of the buffer, or `None` (and nothing is completed) when the span is
/// reversed, runs past the buffer, or cuts a character.
pub fn completion_query(input: &CompletionInputSnapshot, span_start: usize, span_end: usize) -> (r: Option<String>)
    ensures
        r is Some <==> (span_start <= span_end && is_char_offset(input.buffer_text@, span_start as int)
            && is_char_offset(input.buffer_text@, span_end as int)),
        forall|a: int, b: int|
            0 <= a <= input.buffer_text@.len() && 0 <= b <= input.buffer_text@.len() && #[trigger] char_offset(
                input.buffer_text@,
                a,
            ) == span_start && #[trigger] char_offset(input.buffer_text@, b) == span_end && r is Some
                ==> r->0@ == input.buffer_text@.subrange(a, b),
{
    let text = input.buffer_text.as_str();
    let ghost s = text@;
    let total = text.as_bytes().len();
    let n = text.unicode_len();
    proof {
        assert(s.take(0) =~= Seq::<char>::empty());
        assert(vstd::utf8::encode_utf8(Seq::<char>::empty()) =~= Seq::<u8>::empty());
    }
    let mut off: usize = 0;
    let mut i: usize = 0;
    let mut first: Option<usize> = None;
    let mut last: Option<usize> = None;
    while i < n
        invariant
            n == s.len(),
            s == input.buffer_text@,
            text@ == s,
            total == utf8_len(s),
            i <= n,
            off == char_offset(s, i as int),
            first matches Some(k) ==> k < i && char_offset(s, k as int) == span_start,
            first is None ==> forall|j: int| 0 <= j < i ==> #[trigger] char_offset(s, j) != span_start,
            last matches Some(k) ==> k < i && char_offset(s, k as int) == span_end,
            last is None ==> forall|j: int| 0 <= j < i ==> #[trigger] char_offset(s, j) != span_end,
        decreases n - i,
    {
        if off == span_start {
            first = Some(i);
        }
        if off == span_end {
            last = Some(i);
        }
        let w = char_width(text.get_char(i));
        proof {
            lemma_offset_step(s, i as int);
            lemma_offset_bounded(s, i + 1);
        }
        off = off + w;
        i = i + 1;
    }
    if off == span_start {
        first = Some(i);
    }
    if off == span_end {
        last = Some(i);
    }
    proof {
        assert forall|a: int, b: int|
            0 <= a <= s.len() && 0 <= b <= s.len() && #[trigger] char_offset(s, a) == span_start
                && #[trigger] char_offset(s, b) == span_end implies first == Some(a as usize)
            && last == Some(b as usize) by {
            if let Some(k) = first {
                if (k as int) < a {
                    lemma_offset_increasing(s, k as int, a);
                } else if a < (k as int) {
                    lemma_offset_increasing(s, a, k as int);
                }
            }
            if let Some(k) = last {
                if (k as int) < b {
                    lemma_offset_increasing(s, k as int, b);
                } else if b < (k as int) {
                    lemma_offset_increasing(s, b, k as int);
                }
            }
        }
    }
    match (first, last) {
        (Some(a), Some(b)) => {
            if span_start <= span_end {
                proof {
                    if b < a {
                        lemma_offset_increasing(s, b as int, a as int);
                    }
                }
                Some(text.substring_char(a, b).to_owned())
            } else {
                None
            }
        },
        _ => None,
    }
}

} // verus!
