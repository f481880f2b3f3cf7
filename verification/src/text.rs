//! Line-indexed text storage on top of a rope.
//!
//! The rope comes from `ropey`. Its operations are not verified here; the
//! contracts this module assumes of them are stated over [`rope_text`] and
//! [`slice_text`], the character sequences that a rope and a slice hold.

use vstd::prelude::*;

verus! {

/// `ropey::Rope`, a text stored in pieces. Nothing of its inside is known
/// here.
#[verifier::external_type_specification]
#[verifier::external_body]
pub struct ExRope(ropey::Rope);

/// `ropey::RopeSlice`, a borrowed range of a rope. Nothing of its inside is
/// known here.
#[verifier::external_type_specification]
#[verifier::external_body]
pub struct ExRopeSlice<'a>(ropey::RopeSlice<'a>);

/// The characters that a rope holds, in order.
pub uninterp spec fn rope_text(rope: ropey::Rope) -> Seq<char>;

/// The characters that a slice of a rope covers, in order.
pub uninterp spec fn slice_text(slice: ropey::RopeSlice) -> Seq<char>;

/// The characters that end a line: LF, VT, FF, CR, NEL, LS and PS.
pub open spec fn is_line_break(c: char) -> bool {
    c == '\u{000A}' || c == '\u{000B}' || c == '\u{000C}' || c == '\u{000D}' || c == '\u{0085}'
        || c == '\u{2028}' || c == '\u{2029}'
}

/// Whether a line ends with the character at index `i`. A CR directly before
/// an LF does not end a line: the pair is one break, which ends at the LF.
pub open spec fn ends_line(text: Seq<char>, i: int) -> bool {
    &&& 0 <= i < text.len()
    &&& is_line_break(text[i])
    &&& !(text[i] == '\u{000D}' && i + 1 < text.len() && text[i + 1] == '\u{000A}')
}

/// Number of line breaks at or after index `from`.
pub open spec fn breaks_from(text: Seq<char>, from: int) -> nat
    decreases text.len() - from,
{
    if from < 0 || from >= text.len() {
        0
    } else if ends_line(text, from) {
        1 + breaks_from(text, from + 1)
    } else {
        breaks_from(text, from + 1)
    }
}

/// Number of lines of a text: one more than it has line breaks, so that the
/// empty text has one line and a text that ends in a break has an empty last
/// line.
pub open spec fn line_count(text: Seq<char>) -> nat {
    breaks_from(text, 0) + 1
}

/// Index just behind the `skip`-th line break at or after `from`, or the
/// length of the text where there are fewer breaks.
pub open spec fn start_after(text: Seq<char>, from: int, skip: nat) -> int
    decreases text.len() - from,
{
    if from < 0 || from >= text.len() {
        text.len() as int
    } else if skip == 0 {
        from
    } else if ends_line(text, from) {
        start_after(text, from + 1, (skip - 1) as nat)
    } else {
        start_after(text, from + 1, skip)
    }
}

/// Character index at which line `line` starts. For `line == line_count(text)`
/// this is the length of the text.
pub open spec fn line_start(text: Seq<char>, line: nat) -> int {
    start_after(text, 0, line)
}

/// The characters of line `line` of a text, its line break included.
pub open spec fn line_text(text: Seq<char>, line: nat) -> Seq<char> {
    text.subrange(line_start(text, line), line_start(text, line + 1))
}

/// The lines of a text, each with its line break.
pub open spec fn lines_of(text: Seq<char>) -> Seq<Seq<char>> {
    Seq::new(line_count(text), |k: int| line_text(text, k as nat))
}

/// `Rope::new` makes a rope that holds no characters.
pub assume_specification[ ropey::Rope::new ]() -> (rope: ropey::Rope)
    ensures
        rope_text(rope) == Seq::<char>::empty(),
;

/// `Rope::from_str` makes a rope that holds the characters of `text`.
pub assume_specification[ ropey::Rope::from_str ](text: &str) -> (rope: ropey::Rope)
    ensures
        rope_text(rope) == text@,
;

/// `Rope::len_chars` counts the characters of the rope.
pub assume_specification[ ropey::Rope::len_chars ](rope: &ropey::Rope) -> (n: usize)
    ensures
        n == rope_text(*rope).len(),
;

/// `Rope::len_lines` is one more than the number of line breaks in the rope.
pub assume_specification[ ropey::Rope::len_lines ](rope: &ropey::Rope) -> (n: usize)
    ensures
        n == line_count(rope_text(*rope)),
;

/// `Rope::line_to_char` gives the character index at which a line starts,
/// and the length of the text for the line one past the last. It panics for
/// a line index beyond that, which `requires` leaves out.
pub assume_specification[ ropey::Rope::line_to_char ](rope: &ropey::Rope, line_idx: usize) -> (idx:
    usize)
    requires
        line_idx <= line_count(rope_text(*rope)),
    ensures
        idx == line_start(rope_text(*rope), line_idx as nat),
;

/// `Rope::slice` over the character range `start..end`. It panics where the
/// range is reversed or ends beyond the text, which `requires` leaves out.
#[verifier::external_body]
fn rope_slice<'a>(rope: &'a ropey::Rope, start: usize, end: usize) -> (slice: ropey::RopeSlice<'a>)
    requires
        start <= end <= rope_text(*rope).len(),
    ensures
        slice_text(slice) == rope_text(*rope).subrange(start as int, end as int),
{
    rope.slice(start..end)
}

/// `RopeSlice::lines` walks the lines of the slice in order, each with its
/// line break and the last one even when it is empty. Each line is turned
/// into an owned string by `String::from`.
#[verifier::external_body]
fn slice_line_strings(slice: &ropey::RopeSlice) -> (lines: Vec<String>)
    ensures
        lines.deep_view() == lines_of(slice_text(*slice)),
{
    slice.lines().map(String::from).collect()
}

/// Why a request for a range of a store is turned down.
#[derive(Clone, Copy, Debug, PartialEq, Eq, Structural)]
pub enum TextError {
    /// The range ends before it starts.
    InvalidRange,
    /// A line or character index lies beyond the end of the store.
    OutOfRange,
}

/// Number of empty rows to show below the text when lines `start..end` are
/// asked of a text: what the request exceeds the text's line count by.
pub open spec fn pad_count(text: Seq<char>, start: int, end: int) -> int {
    if end - start > line_count(text) {
        end - start - line_count(text)
    } else {
        0
    }
}

/// The reason for which lines `start..end` cannot be taken from a text, if
/// there is one.
pub open spec fn range_error(text: Seq<char>, start: int, end: int) -> Option<TextError> {
    if end < start {
        Some(TextError::InvalidRange)
    } else if start > line_count(text) {
        Some(TextError::OutOfRange)
    } else if pad_count(text, start, end) == 0 && end + 1 > line_count(text) {
        Some(TextError::OutOfRange)
    } else {
        None
    }
}

/// The characters handed out for lines `start..end` of a text. Without
/// padding this runs to the start of line `end + 1`, so that it takes in the
/// line break of line `end`; with padding it runs to the end of the text.
pub open spec fn range_text(text: Seq<char>, start: int, end: int) -> Seq<char> {
    if pad_count(text, start, end) == 0 {
        text.subrange(line_start(text, start as nat), line_start(text, (end + 1) as nat))
    } else {
        text.subrange(line_start(text, start as nat), text.len() as int)
    }
}

/// A line start lies inside the text, and later lines start no earlier.
pub proof fn lemma_start_after_ordered(text: Seq<char>, from: int, a: nat, b: nat)
    requires
        0 <= from <= text.len(),
        a <= b,
    ensures
        from <= start_after(text, from, a) <= start_after(text, from, b) <= text.len(),
    decreases text.len() - from,
{
    if from < text.len() {
        if a == 0 {
            if b > 0 {
                let rest = if ends_line(text, from) {
                    (b - 1) as nat
                } else {
                    b
                };
                lemma_start_after_ordered(text, from + 1, rest, rest);
            }
        } else if ends_line(text, from) {
            lemma_start_after_ordered(text, from + 1, (a - 1) as nat, (b - 1) as nat);
        } else {
            lemma_start_after_ordered(text, from + 1, a, b);
        }
    }
}

/// Skipping more breaks than are left leads to the end of the text.
pub proof fn lemma_start_after_end(text: Seq<char>, from: int, skip: nat)
    requires
        0 <= from <= text.len(),
        skip > breaks_from(text, from),
    ensures
        start_after(text, from, skip) == text.len(),
    decreases text.len() - from,
{
    if from < text.len() {
        if ends_line(text, from) {
            lemma_start_after_end(text, from + 1, (skip - 1) as nat);
        } else {
            lemma_start_after_end(text, from + 1, skip);
        }
    }
}

/// The first line starts at index 0, the line one past the last at the end of
/// the text, and line starts grow with the line index.
pub proof fn lemma_line_starts(text: Seq<char>, a: nat, b: nat)
    requires
        a <= b,
    ensures
        line_start(text, 0) == 0,
        line_start(text, line_count(text)) == text.len(),
        0 <= line_start(text, a) <= line_start(text, b) <= text.len(),
{
    lemma_start_after_ordered(text, 0, a, b);
    lemma_start_after_end(text, 0, line_count(text));
}

/// A request from the first line on for more lines than the text has is
/// granted, hands out the whole text, and is padded by what it asks too much.
pub proof fn lemma_padded_range_is_whole_text(text: Seq<char>, end: int)
    requires
        end > line_count(text),
    ensures
        range_error(text, 0, end) is None,
        pad_count(text, 0, end) == end - line_count(text),
        range_text(text, 0, end) == text,
{
    assert(text.subrange(0, text.len() as int) =~= text);
}

/// A text in which no character is a line break is one line.
pub proof fn lemma_single_line(text: Seq<char>)
    requires
        forall|i: int| 0 <= i < text.len() ==> !is_line_break(#[trigger] text[i]),
    ensures
        line_count(text) == 1,
        line_start(text, 1) == text.len(),
        lines_of(text) == seq![text],
{
    lemma_no_breaks_from(text, 0);
    lemma_start_after_end(text, 0, 1);
    assert(line_text(text, 0) =~= text);
    assert(lines_of(text) =~= seq![text]);
}

/// Where no character at or after `from` is a line break, no line ends there.
proof fn lemma_no_breaks_from(text: Seq<char>, from: int)
    requires
        0 <= from <= text.len(),
        forall|i: int| from <= i < text.len() ==> !is_line_break(#[trigger] text[i]),
    ensures
        breaks_from(text, from) == 0,
    decreases text.len() - from,
{
    if from < text.len() {
        lemma_no_breaks_from(text, from + 1);
    }
}

/// The rows of a store that a window shows: a slice of the store, and the
/// number of empty rows to add below it.
#[derive(Debug)]
pub struct Lines<'a> {
    pub lines: ropey::RopeSlice<'a>,
    pub empty: usize,
}

impl<'a> Lines<'a> {
    /// The characters that the slice covers.
    pub open spec fn text(&self) -> Seq<char> {
        slice_text(self.lines)
    }

    /// The slice's lines as strings, in order, each with its line break.
    pub fn to_strings(&self) -> (out: Vec<String>)
        ensures
            out.deep_view() == lines_of(self.text()),
    {
        slice_line_strings(&self.lines)
    }
}

/// Text that is addressed by line index and by character offset.
#[derive(Debug)]
pub struct TextStore {
    rope: ropey::Rope,
}

impl View for TextStore {
    type V = Seq<char>;

    closed spec fn view(&self) -> Seq<char> {
        rope_text(self.rope)
    }
}

impl TextStore {
    /// A store that holds what `rope` holds.
    pub fn new(rope: ropey::Rope) -> (store: Self)
        ensures
            store@ == rope_text(rope),
    {
        TextStore { rope }
    }

    /// A store that holds the characters of `text`.
    pub fn from_str(text: &str) -> (store: Self)
        ensures
            store@ == text@,
    {
        TextStore { rope: ropey::Rope::from_str(text) }
    }

    pub fn len_chars(&self) -> (n: usize)
        ensures
            n == self@.len(),
    {
        self.rope.len_chars()
    }

    pub fn len_lines(&self) -> (n: usize)
        ensures
            n == line_count(self@),
    {
        self.rope.len_lines()
    }

    /// Character offset at which line `line` starts. The line one past the
    /// last is accepted and gives the length of the store.
    pub fn line_to_char(&self, line: usize) -> (r: Result<usize, TextError>)
        ensures
            match r {
                Ok(idx) => line <= line_count(self@) && idx == line_start(self@, line as nat),
                Err(e) => line > line_count(self@) && e == TextError::OutOfRange,
            },
    {
        if line <= self.rope.len_lines() {
            Ok(self.rope.line_to_char(line))
        } else {
            Err(TextError::OutOfRange)
        }
    }

    /// The characters `start..end` of the store.
    pub fn slice(&self, start: usize, end: usize) -> (r: Result<ropey::RopeSlice<'_>, TextError>)
        ensures
            match r {
                Ok(slice) => start <= end <= self@.len() && slice_text(slice) == self@.subrange(
                    start as int,
                    end as int,
                ),
                Err(e) => if end < start {
                    e == TextError::InvalidRange
                } else {
                    end > self@.len() && e == TextError::OutOfRange
                },
            },
    {
        if end < start {
            Err(TextError::InvalidRange)
        } else if end > self.rope.len_chars() {
            Err(TextError::OutOfRange)
        } else {
            Ok(rope_slice(&self.rope, start, end))
        }
    }

    /// The rows for lines `start..end`: the text from the start of line
    /// `start` on, and the number of rows that the store cannot fill.
    pub fn slice_lines(&self, start: usize, end: usize) -> (r: Result<Lines<'_>, TextError>)
        ensures
            match r {
                Ok(lines) => {
                    &&& range_error(self@, start as int, end as int) is None
                    &&& lines.empty == pad_count(self@, start as int, end as int)
                    &&& lines.text() == range_text(self@, start as int, end as int)
                },
                Err(e) => range_error(self@, start as int, end as int) == Some(e),
            },
    {
        if end < start {
            return Err(TextError::InvalidRange);
        }
        let size_request = end - start;
        let len_lines = self.rope.len_lines();
        let empty = if size_request > len_lines {
            size_request - len_lines
        } else {
            0
        };
        if start > len_lines {
            return Err(TextError::OutOfRange);
        }
        let start_pos = self.rope.line_to_char(start);
        let end_pos = if empty == 0 {
            if end >= len_lines {
                return Err(TextError::OutOfRange);
            }
            self.rope.line_to_char(end + 1)
        } else {
            self.rope.len_chars()
        };
        proof {
            lemma_line_starts(self@, start as nat, (end + 1) as nat);
        }
        Ok(Lines { lines: rope_slice(&self.rope, start_pos, end_pos), empty })
    }
}

} // verus!
