//! The editor's modes: the line buffers and their registry, the screen
//! chrome derived from the active buffer, and the modeline counters.

use vstd::prelude::*;
use vstd::string::{StrSliceExecFns, StringExecFns};
use crate::app::AppEvent;

verus! {

/// An offset added to a cursor to find where it shows on the screen.
#[derive(Copy, Clone, Debug, PartialEq, Eq, Structural)]
pub struct Pos {
    pub x: usize,
    pub y: usize,
}

impl Default for Pos {
    fn default() -> (pos: Self)
        ensures
            pos == (Pos { x: 0, y: 0 }),
    {
        Pos { x: 0, y: 0 }
    }
}

impl Pos {
    /// Both coordinates as `u16`, where both fit.
    pub fn as_u16(&self) -> (r: Option<(u16, u16)>)
        ensures
            r == if self.x <= u16::MAX && self.y <= u16::MAX {
                Some((self.x as u16, self.y as u16))
            } else {
                None
            },
    {
        if self.x <= 0xffff && self.y <= 0xffff {
            Some((self.x as u16, self.y as u16))
        } else {
            None
        }
    }
}

/// A position in a buffer: a line, and an offset in that line, counted in
/// characters.
#[derive(Copy, Clone, Debug, PartialEq, Eq, Structural)]
pub struct Cursor {
    pub row: usize,
    pub col: usize,
}

impl Default for Cursor {
    fn default() -> (cursor: Self)
        ensures
            cursor == (Cursor { row: 0, col: 0 }),
    {
        Cursor { row: 0, col: 0 }
    }
}

impl Cursor {
    /// Row and column as `u16`, where both fit.
    pub fn as_u16(&self) -> (r: Option<(u16, u16)>)
        ensures
            r == if self.row <= u16::MAX && self.col <= u16::MAX {
                Some((self.row as u16, self.col as u16))
            } else {
                None
            },
    {
        if self.row <= 0xffff && self.col <= 0xffff {
            Some((self.row as u16, self.col as u16))
        } else {
            None
        }
    }

    /// The cursor moved by a scroll offset: `x` is added to the row and `y`
    /// to the column.
    pub fn from_cursor_and_scroll_offset(cursor: &Cursor, pos: &Pos) -> (shown: Self)
        requires
            cursor.row + pos.x <= usize::MAX,
            cursor.col + pos.y <= usize::MAX,
        ensures
            shown.row == cursor.row + pos.x,
            shown.col == cursor.col + pos.y,
    {
        Cursor { row: cursor.row + pos.x, col: cursor.col + pos.y }
    }
}

/// What a buffer holds, with unbounded cursor coordinates.
pub struct BufferView {
    pub content: Seq<Seq<char>>,
    pub row: int,
    pub col: int,
    pub scroll_x: int,
    pub scroll_y: int,
}

impl BufferView {
    /// `text` appended to the cursor's line and the column moved on by its
    /// length. Nothing changes where the cursor's line does not exist.
    pub open spec fn insert(self, text: Seq<char>) -> BufferView {
        if 0 <= self.row < self.content.len() {
            BufferView {
                content: self.content.update(self.row, self.content[self.row] + text),
                col: self.col + text.len(),
                ..self
            }
        } else {
            self
        }
    }

    /// An empty line added at the end, and the cursor at the start of the
    /// next row. The cursor's line is not split.
    pub open spec fn newline(self) -> BufferView {
        BufferView { content: self.content.push(Seq::empty()), row: self.row + 1, col: 0, ..self }
    }

    /// The column to which the cursor goes when it moves up onto `line`: one
    /// short of the line's length, and 0 for a line of at most one character.
    pub open spec fn merge_col(line: Seq<char>) -> int {
        if line.len() > 1 {
            line.len() - 1
        } else {
            0
        }
    }

    /// One step back. On a line with text, its last character goes and the
    /// column drops by one, never below 0. On an empty line, where there is
    /// more than one line, that line goes and the cursor moves up a row,
    /// never above the first, to the column that [`BufferView::merge_col`]
    /// gives for the line it is then on. A single empty line stays as it is,
    /// and so does a buffer whose cursor is on no line.
    pub open spec fn backspace(self) -> BufferView {
        if !(0 <= self.row < self.content.len()) {
            self
        } else if self.content[self.row].len() > 0 {
            BufferView {
                content: self.content.update(self.row, self.content[self.row].drop_last()),
                col: if self.col > 0 {
                    self.col - 1
                } else {
                    0
                },
                ..self
            }
        } else if self.content.len() > 1 {
            let row = if self.row > 0 {
                self.row - 1
            } else {
                0
            };
            BufferView {
                content: self.content.remove(self.row),
                row,
                col: Self::merge_col(self.content.remove(self.row)[row]),
                ..self
            }
        } else {
            self
        }
    }

    /// Row at which the cursor shows.
    pub open spec fn shown_row(self) -> int {
        self.row + self.scroll_x
    }

    /// Column at which the cursor shows.
    pub open spec fn shown_col(self) -> int {
        self.col + self.scroll_y
    }

    /// Whether the place at which the cursor shows can be held in a `Cursor`.
    pub open spec fn shows(self) -> bool {
        self.shown_row() <= usize::MAX && self.shown_col() <= usize::MAX
    }
}

/// A cursor that is on a line stays on a line, whatever is done to the
/// buffer.
pub proof fn lemma_cursor_stays_on_a_line(buffer: BufferView, text: Seq<char>)
    requires
        0 <= buffer.row < buffer.content.len(),
    ensures
        0 <= buffer.insert(text).row < buffer.insert(text).content.len(),
        0 <= buffer.newline().row < buffer.newline().content.len(),
        0 <= buffer.backspace().row < buffer.backspace().content.len(),
{
}

/// A buffer with a line never loses its last line to a step back.
pub proof fn lemma_backspace_keeps_a_line(buffer: BufferView)
    requires
        buffer.content.len() >= 1,
    ensures
        buffer.backspace().content.len() >= 1,
        buffer.content.len() - 1 <= buffer.backspace().content.len() <= buffer.content.len(),
{
}

/// Number of characters and lines that a buffer holds.
pub open spec fn weight(content: Seq<Seq<char>>) -> nat
    decreases content.len(),
{
    if content.len() == 0 {
        0
    } else {
        weight(content.drop_last()) + content.last().len() + 1
    }
}

/// Taking an empty line out makes a buffer lighter by one.
proof fn lemma_weight_remove_empty(content: Seq<Seq<char>>, at: int)
    requires
        0 <= at < content.len(),
        content[at].len() == 0,
    ensures
        weight(content.remove(at)) + 1 == weight(content),
    decreases content.len(),
{
    if at == content.len() - 1 {
        assert(content.remove(at) =~= content.drop_last());
    } else {
        lemma_weight_remove_empty(content.drop_last(), at);
        assert(content.remove(at).drop_last() =~= content.drop_last().remove(at));
        assert(content.remove(at).last() == content.last());
    }
}

/// Taking the last character off a line makes a buffer lighter by one.
proof fn lemma_weight_drop_char_at(content: Seq<Seq<char>>, at: int)
    requires
        0 <= at < content.len(),
        content[at].len() >= 1,
    ensures
        weight(content.update(at, content[at].drop_last())) + 1 == weight(content),
    decreases content.len(),
{
    let shorter = content.update(at, content[at].drop_last());
    if at == content.len() - 1 {
        assert(shorter.drop_last() =~= content.drop_last());
    } else {
        lemma_weight_drop_char_at(content.drop_last(), at);
        assert(shorter.drop_last() =~= content.drop_last().update(
            at,
            content.drop_last()[at].drop_last(),
        ));
    }
}

/// With the cursor on a line, each step back makes the buffer lighter and
/// leaves the cursor on a line, until one empty line is left. So steps back,
/// often enough repeated, lead to a buffer of one empty line.
pub proof fn lemma_backspace_progress(buffer: BufferView)
    requires
        0 <= buffer.row < buffer.content.len(),
    ensures
        0 <= buffer.backspace().row < buffer.backspace().content.len(),
        buffer.row == buffer.content.len() - 1 ==> buffer.backspace().row
            == buffer.backspace().content.len() - 1,
        buffer.content == seq![Seq::<char>::empty()] ==> buffer.backspace() == buffer,
        buffer.content != seq![Seq::<char>::empty()] ==> weight(buffer.backspace().content)
            < weight(buffer.content),
{
    if buffer.content[buffer.row].len() > 0 {
        lemma_weight_drop_char_at(buffer.content, buffer.row);
    } else if buffer.content.len() == 1 {
        assert(buffer.content[0] =~= Seq::<char>::empty());
        assert(buffer.content =~= seq![Seq::<char>::empty()]);
    } else {
        lemma_weight_remove_empty(buffer.content, buffer.row);
    }
}

/// `String::pop` takes the last character off a string and returns it, or
/// returns `None` and leaves an empty string empty.
#[verifier::external_body]
fn pop_char(s: &mut String) -> (c: Option<char>)
    ensures
        old(s)@.len() == 0 ==> c is None && final(s)@ == old(s)@,
        old(s)@.len() > 0 ==> c == Some(old(s)@.last()) && final(s)@ == old(s)@.drop_last(),
{
    s.pop()
}

/// A text as a sequence of lines, with a cursor and a scroll offset.
#[derive(Debug)]
pub struct Buffer {
    pub content: Vec<String>,
    pub cursor: Cursor,
    pub scroll: Pos,
}

impl View for Buffer {
    type V = BufferView;

    open spec fn view(&self) -> BufferView {
        BufferView {
            content: self.content.deep_view(),
            row: self.cursor.row as int,
            col: self.cursor.col as int,
            scroll_x: self.scroll.x as int,
            scroll_y: self.scroll.y as int,
        }
    }
}

impl Default for Buffer {
    /// One empty line, with the cursor at its start.
    fn default() -> (buffer: Self)
        ensures
            buffer@ == (BufferView {
                content: seq![Seq::<char>::empty()],
                row: 0,
                col: 0,
                scroll_x: 0,
                scroll_y: 0,
            }),
    {
        let mut content: Vec<String> = Vec::new();
        content.push(String::new());
        let buffer = Buffer { content, cursor: Cursor::default(), scroll: Pos::default() };
        assert(buffer@.content =~= seq![Seq::<char>::empty()]);
        buffer
    }
}

impl Buffer {
    /// Appends `content` to the cursor's line and moves the column on by its
    /// length. Does nothing where the cursor's line does not exist.
    pub fn insert(&mut self, content: &str)
        requires
            old(self)@.insert(content@).col <= usize::MAX,
        ensures
            final(self)@ == old(self)@.insert(content@),
            old(self).cursor.row < old(self).content.len() ==> {
                &&& final(self).cursor.col == old(self).cursor.col + content@.len()
                &&& final(self).content[old(self).cursor.row as int]@ == old(self).content[old(
                    self,
                ).cursor.row as int]@ + content@
            },
    {
        let row = self.cursor.row;
        if row < self.content.len() {
            self.cursor.col = self.cursor.col + content.unicode_len();
            self.content[row].append(content);
            assert(self@.content =~= old(self)@.insert(content@).content);
        }
    }

    /// Adds an empty line at the end and puts the cursor at the start of the
    /// next row.
    pub fn newline(&mut self)
        requires
            old(self).cursor.row < usize::MAX,
        ensures
            final(self)@ == old(self)@.newline(),
    {
        self.content.push(String::new());
        self.cursor.row = self.cursor.row + 1;
        self.cursor.col = 0;
        assert(self@.content =~= old(self)@.newline().content);
    }

    /// Whether the cursor at `row` and `col` shows at a place that machine
    /// words hold, given the scroll offset.
    fn shows_at(&self, row: usize, col: usize) -> (b: bool)
        ensures
            b == (row + self.scroll.x <= usize::MAX && col + self.scroll.y <= usize::MAX),
    {
        row.checked_add(self.scroll.x).is_some() && col.checked_add(self.scroll.y).is_some()
    }

    /// Whether [`Buffer::insert`] of `content` can be made and leaves the
    /// cursor where it can be shown.
    pub fn shows_after_insert(&self, content: &str) -> (b: bool)
        ensures
            b == self@.insert(content@).shows(),
    {
        if self.cursor.row < self.content.len() {
            match self.cursor.col.checked_add(content.unicode_len()) {
                Some(col) => self.shows_at(self.cursor.row, col),
                None => false,
            }
        } else {
            self.shows_at(self.cursor.row, self.cursor.col)
        }
    }

    /// Whether [`Buffer::newline`] can be made and leaves the cursor where it
    /// can be shown.
    pub fn shows_after_newline(&self) -> (b: bool)
        ensures
            b == self@.newline().shows(),
    {
        match self.cursor.row.checked_add(1) {
            Some(row) => self.shows_at(row, 0),
            None => false,
        }
    }

    /// Whether [`Buffer::backspace`] leaves the cursor where it can be shown.
    pub fn shows_after_backspace(&self) -> (b: bool)
        ensures
            b == self@.backspace().shows(),
    {
        let row = self.cursor.row;
        if row >= self.content.len() {
            self.shows_at(row, self.cursor.col)
        } else if !self.content[row].as_str().is_empty() {
            let col = if self.cursor.col > 0 {
                self.cursor.col - 1
            } else {
                0
            };
            self.shows_at(row, col)
        } else if self.content.len() > 1 {
            let up = if row > 0 {
                row - 1
            } else {
                0
            };
            // Without the cursor's line, the line below the first moves up.
            let at = if row > 0 {
                up
            } else {
                1
            };
            let prev_len = self.content[at].as_str().unicode_len();
            let col = if prev_len > 1 {
                prev_len - 1
            } else {
                0
            };
            self.shows_at(up, col)
        } else {
            self.shows_at(row, self.cursor.col)
        }
    }

    /// Takes one step back: see [`BufferView::backspace`].
    pub fn backspace(&mut self)
        ensures
            final(self)@ == old(self)@.backspace(),
            old(self).content.len() >= 1 ==> final(self).content.len() >= 1,
    {
        let row = self.cursor.row;
        if row < self.content.len() {
            match pop_char(&mut self.content[row]) {
                Some(_) => {
                    if self.cursor.col > 0 {
                        self.cursor.col = self.cursor.col - 1;
                    }
                    assert(self@.content =~= old(self)@.backspace().content);
                },
                None => {
                    assert(self.content.deep_view() =~= old(self).content.deep_view());
                    if self.content.len() > 1 {
                        self.content.remove(row);
                        if row > 0 {
                            self.cursor.row = row - 1;
                        }
                        let prev_len = self.content[self.cursor.row].as_str().unicode_len();
                        if prev_len > 1 {
                            self.cursor.col = prev_len - 1;
                        } else {
                            self.cursor.col = 0;
                        }
                        assert(self@.content =~= old(self)@.backspace().content);
                    } else {
                        assert(self@.content =~= old(self)@.content);
                    }
                },
            }
        }
    }
}

/// `unit` written `n` times in a row.
pub open spec fn repeat(unit: Seq<char>, n: nat) -> Seq<char>
    decreases n,
{
    if n == 0 {
        seq![]
    } else {
        repeat(unit, (n - 1) as nat) + unit
    }
}

/// The lines written one after the other with `sep` between each two.
pub open spec fn join(lines: Seq<Seq<char>>, sep: Seq<char>) -> Seq<char>
    decreases lines.len(),
{
    if lines.len() == 0 {
        seq![]
    } else if lines.len() == 1 {
        lines[0]
    } else {
        join(lines.drop_last(), sep) + sep + lines.last()
    }
}

/// `n` rows that each hold a tilde.
pub open spec fn fillers(n: nat) -> Seq<Seq<char>> {
    Seq::new(n, |k: int| "~"@)
}

/// The body of the screen for a buffer of the given lines on a terminal of
/// `rows` rows: the lines, then fillers for the rows that are left when two
/// rows are kept for the headline and the modeline. Lines that do not fit are
/// kept.
pub open spec fn padded(content: Seq<Seq<char>>, rows: u16) -> Seq<Seq<char>> {
    if content.len() + 2 < rows {
        content + fillers((rows - 2 - content.len()) as nat)
    } else {
        content
    }
}

/// The modeline of a terminal of `columns` columns: the mode between its
/// marks, with blanks in the middle that make it as wide as the terminal.
/// There is none on a terminal that is narrower than the marked mode.
pub open spec fn modeline_text(columns: u16) -> Seq<char> {
    "|> Normal "@ + repeat(" "@, if columns > 13 {
        (columns - 13) as nat
    } else {
        0
    }) + " <|"@
}

/// `unit` written `n` times in a row.
fn repeat_str(unit: &str, n: usize) -> (out: String)
    ensures
        out@ == repeat(unit@, n as nat),
{
    let mut out = String::new();
    let mut i: usize = 0;
    while i < n
        invariant
            i <= n,
            out@ == repeat(unit@, i as nat),
        decreases n - i,
    {
        out.append(unit);
        i = i + 1;
    }
    out
}

/// `n` rows that each hold a tilde, added at the end of `rows`.
fn push_fillers(rows: &mut Vec<String>, n: usize)
    ensures
        final(rows).deep_view() == old(rows).deep_view() + fillers(n as nat),
{
    let mut i: usize = 0;
    while i < n
        invariant
            i <= n,
            rows.deep_view() == old(rows).deep_view() + fillers(i as nat),
        decreases n - i,
    {
        let ghost before = rows.deep_view();
        rows.push("~".to_string());
        i = i + 1;
        assert(rows.deep_view() =~= before.push("~"@));
        assert(rows.deep_view() =~= old(rows).deep_view() + fillers(i as nat));
    }
}

/// The chrome of the screen: a headline, the body rows, a modeline and the
/// place at which the cursor shows, for a terminal of a fixed size.
#[derive(Debug)]
pub struct UiMode {
    pub headline: String,
    pub body: Vec<String>,
    pub modeline: String,
    pub cursor: Cursor,
    /// Width of the terminal.
    pub columns: u16,
    /// Height of the terminal.
    pub rows: u16,
}

impl UiMode {
    /// The chrome of an empty screen on a terminal of the given size: a
    /// headline of dashes, fillers in every body row, and the modeline.
    pub fn new(columns: u16, rows: u16) -> (ui: Self)
        ensures
            ui.headline@ == repeat("-"@, columns as nat),
            ui.body.deep_view() == padded(seq![], rows),
            ui.modeline@ == modeline_text(columns),
            ui.cursor == (Cursor { row: 0, col: 0 }),
            ui.columns == columns,
            ui.rows == rows,
    {
        let mut body: Vec<String> = Vec::new();
        assert(body.deep_view() =~= seq![]);
        if rows > 2 {
            push_fillers(&mut body, (rows - 2) as usize);
        }
        assert(body.deep_view() =~= padded(seq![], rows));
        let blanks = if columns > 13 {
            (columns - 13) as usize
        } else {
            0
        };
        let mut modeline = "|> Normal ".to_string();
        modeline.append(repeat_str(" ", blanks).as_str());
        modeline.append(" <|");
        UiMode {
            headline: repeat_str("-", columns as usize),
            body,
            modeline,
            cursor: Cursor::default(),
            columns,
            rows,
        }
    }

    /// The whole screen as it is written out.
    pub open spec fn screen_text(&self) -> Seq<char> {
        self.headline@ + "\n"@ + join(self.body.deep_view(), "\n"@) + "\n"@ + self.modeline@
    }

    /// The screen as one text: the headline, the body rows and the modeline,
    /// each on a line of its own.
    pub fn for_tui(&self) -> (text: String)
        ensures
            text@ == self.screen_text(),
    {
        let mut text = String::new();
        text.append(self.headline.as_str());
        text.append("\n");
        let ghost lines = self.body.deep_view();
        let ghost head = text@;
        let mut i: usize = 0;
        while i < self.body.len()
            invariant
                i <= self.body.len(),
                lines == self.body.deep_view(),
                text@ == head + join(lines.take(i as int), "\n"@),
            decreases self.body.len() - i,
        {
            if i > 0 {
                text.append("\n");
            }
            text.append(self.body[i].as_str());
            proof {
                assert(lines.take(i + 1).drop_last() =~= lines.take(i as int));
                assert(lines.take(i + 1).last() == self.body[i as int]@);
                assert(text@ =~= head + join(lines.take(i + 1), "\n"@));
            }
            i = i + 1;
        }
        assert(lines.take(i as int) =~= lines);
        text.append("\n");
        text.append(self.modeline.as_str());
        assert(text@ =~= self.screen_text());
        text
    }

    /// Puts `content` in the body, followed by fillers for the rows that it
    /// leaves free.
    pub fn update_body(&mut self, content: Vec<String>)
        ensures
            final(self).body.deep_view() == padded(content.deep_view(), old(self).rows),
            final(self).headline == old(self).headline,
            final(self).modeline == old(self).modeline,
            final(self).cursor == old(self).cursor,
            final(self).columns == old(self).columns,
            final(self).rows == old(self).rows,
    {
        let mut content = content;
        let rows = self.rows as usize;
        if content.len() < rows && rows - content.len() > 2 {
            let free = rows - content.len() - 2;
            push_fillers(&mut content, free);
        }
        self.body = content;
    }

    /// Puts the cursor where `cb` says, given where it is.
    pub fn update_cursor<F>(&mut self, cb: F) where F: FnOnce(&Cursor) -> Cursor
        requires
            cb.requires((&old(self).cursor,)),
        ensures
            cb.ensures((&old(self).cursor,), final(self).cursor),
            final(self).headline == old(self).headline,
            final(self).body == old(self).body,
            final(self).modeline == old(self).modeline,
            final(self).columns == old(self).columns,
            final(self).rows == old(self).rows,
    {
        self.cursor = cb(&self.cursor);
    }
}

/// The buffers of the editor, one of them active.
#[derive(Debug)]
pub struct BufferMode {
    pub buffers: Vec<Buffer>,
    pub active: usize,
}

impl Default for BufferMode {
    /// One buffer, which is active and holds the prompt text with the cursor
    /// behind it.
    fn default() -> (mode: Self)
        ensures
            mode.wf(),
            mode.active == 0,
            mode.buffers.len() == 1,
            mode.buffers[0]@ == (BufferView {
                content: seq!["type away > "@],
                row: 0,
                col: 12,
                scroll_x: 0,
                scroll_y: 0,
            }),
    {
        let mut first_buff = Buffer::default();
        proof {
            reveal_strlit("type away > ");
        }
        first_buff.insert("type away > ");
        let mut buffers: Vec<Buffer> = Vec::new();
        buffers.push(first_buff);
        assert(first_buff@.content =~= seq!["type away > "@]);
        BufferMode { buffers, active: 0 }
    }
}

impl BufferMode {
    /// Whether the active buffer exists.
    pub open spec fn wf(&self) -> bool {
        self.active < self.buffers.len()
    }

    /// What the active buffer holds.
    pub open spec fn active_view(&self) -> BufferView {
        self.buffers[self.active as int]@
    }

    /// Whether `after` is this registry with `buffer` as what the active
    /// buffer holds, and every other buffer as it was.
    pub open spec fn edited(&self, after: &BufferMode, buffer: BufferView) -> bool {
        &&& after.active == self.active
        &&& after.buffers.len() == self.buffers.len()
        &&& after.buffers[self.active as int]@ == buffer
        &&& forall|k: int|
            0 <= k < self.buffers.len() && k != self.active ==> after.buffers[k] == self.buffers[k]
    }

    /// Whether `after` is the chrome `before` brought up to date with a
    /// buffer: the buffer's lines in the body, and the cursor where the
    /// buffer's cursor shows.
    pub open spec fn shown(before: &UiMode, after: &UiMode, buffer: BufferView) -> bool {
        &&& after.body.deep_view() == padded(buffer.content, before.rows)
        &&& after.cursor.row == buffer.shown_row()
        &&& after.cursor.col == buffer.shown_col()
        &&& after.headline == before.headline
        &&& after.modeline == before.modeline
        &&& after.columns == before.columns
        &&& after.rows == before.rows
    }

    /// The active buffer. What is done to it is done to the buffer in place.
    pub fn get_active_buffer(&mut self) -> (buffer: &mut Buffer)
        requires
            old(self).wf(),
        ensures
            *buffer == old(self).buffers[old(self).active as int],
            final(self).buffers@ == old(self).buffers@.update(
                old(self).active as int,
                *final(buffer),
            ),
            final(self).active == old(self).active,
    {
        &mut self.buffers[self.active]
    }

    /// Brings `ui_mode` up to date with `buffer`.
    fn refresh(buffer: &Buffer, ui_mode: &mut UiMode)
        requires
            buffer@.shows(),
        ensures
            Self::shown(old(ui_mode), final(ui_mode), buffer@),
    {
        ui_mode.update_body(buffer.content.clone());
        let shown = Cursor::from_cursor_and_scroll_offset(&buffer.cursor, &buffer.scroll);
        ui_mode.update_cursor(|_at: &Cursor| -> (r: Cursor) ensures r == shown { shown });
    }

    /// Inserts `msg` in the active buffer at its cursor, brings `ui_mode` up
    /// to date with the buffer and adds a move event to `cbs`. The event is
    /// always `Move(4, 1)`, whatever was inserted.
    pub fn insert_self(&mut self, ui_mode: &mut UiMode, msg: &str, cbs: &mut Vec<AppEvent>)
        requires
            old(self).wf(),
            old(self).active_view().insert(msg@).shows(),
        ensures
            final(self).wf(),
            old(self).edited(final(self), old(self).active_view().insert(msg@)),
            Self::shown(old(ui_mode), final(ui_mode), old(self).active_view().insert(msg@)),
            final(cbs)@ == old(cbs)@.push(AppEvent::Move(4, 1)),
    {
        let active_buffer = self.get_active_buffer();
        active_buffer.insert(msg);
        Self::refresh(active_buffer, ui_mode);
        cbs.push(AppEvent::Move(4, 1));
    }

    /// Starts a new line in the active buffer and brings `ui_mode` up to
    /// date with the buffer.
    pub fn insert_newline(&mut self, ui_mode: &mut UiMode)
        requires
            old(self).wf(),
            old(self).active_view().newline().shows(),
        ensures
            final(self).wf(),
            old(self).edited(final(self), old(self).active_view().newline()),
            Self::shown(old(ui_mode), final(ui_mode), old(self).active_view().newline()),
    {
        let active_buffer = self.get_active_buffer();
        active_buffer.newline();
        Self::refresh(active_buffer, ui_mode);
    }

    /// Takes one step back in the active buffer and brings `ui_mode` up to
    /// date with the buffer. No event is made.
    pub fn backspace(&mut self, ui_mode: &mut UiMode)
        requires
            old(self).wf(),
            old(self).active_view().backspace().shows(),
        ensures
            final(self).wf(),
            old(self).edited(final(self), old(self).active_view().backspace()),
            Self::shown(old(ui_mode), final(ui_mode), old(self).active_view().backspace()),
    {
        let active_buffer = self.get_active_buffer();
        active_buffer.backspace();
        Self::refresh(active_buffer, ui_mode);
    }
}

/// A counter moved by a signed step, wrapping round at both ends of `usize`.
pub open spec fn shifted(at: usize, step: i16) -> usize {
    if at + step > usize::MAX {
        (at + step - usize::MAX - 1) as usize
    } else if at + step < 0 {
        (at + step + usize::MAX + 1) as usize
    } else {
        (at + step) as usize
    }
}

/// What the modeline shows: the mode, and a row and a column counter.
#[derive(Debug)]
pub struct ModelineMode {
    pub left: String,
    pub row: usize,
    pub col: usize,
}

impl Default for ModelineMode {
    fn default() -> (mode: Self)
        ensures
            mode.left@ == "|> Normal"@,
            mode.row == 0,
            mode.col == 0,
    {
        ModelineMode { left: "|> Normal".to_string(), row: 0, col: 0 }
    }
}

impl ModelineMode {
    /// The modeline after an event: a move adds its first number to the row
    /// counter and its second to the column counter; no other event counts.
    pub open spec fn after(self, event: AppEvent) -> ModelineMode {
        match event {
            AppEvent::Move(x, y) => ModelineMode {
                row: shifted(self.row, x),
                col: shifted(self.col, y),
                ..self
            },
            _ => self,
        }
    }
}

/// Room for what is common to all modes.
#[derive(Debug, Default)]
pub struct CoreMode {}

/// All modes of the editor.
#[derive(Debug)]
pub struct Modes {
    pub ui: UiMode,
    pub buff: BufferMode,
    pub modeline: ModelineMode,
    pub core: CoreMode,
}

impl Modes {
    /// Whether these are the modes at the start, for a terminal of the given
    /// size: an empty screen, the prompt buffer alone in the registry, and
    /// the modeline counters at 0.
    pub open spec fn fresh(&self, columns: u16, rows: u16) -> bool {
        &&& self.ui.headline@ == repeat("-"@, columns as nat)
        &&& self.ui.body.deep_view() == padded(seq![], rows)
        &&& self.ui.modeline@ == modeline_text(columns)
        &&& self.ui.cursor == (Cursor { row: 0, col: 0 })
        &&& self.ui.columns == columns
        &&& self.ui.rows == rows
        &&& self.buff.wf()
        &&& self.buff.active == 0
        &&& self.buff.buffers.len() == 1
        &&& self.buff.buffers[0]@ == (BufferView {
            content: seq!["type away > "@],
            row: 0,
            col: 12,
            scroll_x: 0,
            scroll_y: 0,
        })
        &&& self.modeline.left@ == "|> Normal"@
        &&& self.modeline.row == 0
        &&& self.modeline.col == 0
    }

    /// The modes at the start, for a terminal of the given size.
    pub fn new(columns: u16, rows: u16) -> (modes: Self)
        ensures
            modes.fresh(columns, rows),
    {
        Modes {
            ui: UiMode::new(columns, rows),
            buff: BufferMode::default(),
            modeline: ModelineMode::default(),
            core: CoreMode {  },
        }
    }
}

/// What a callback gets to work on.
pub struct Ctx<'a> {
    pub modes: &'a mut Modes,
}

/// Counts a move event in the modeline. The other modes stay as they are.
pub fn update_modeline(ctx: &mut Ctx, e: &AppEvent)
    ensures
        final(ctx).modes.modeline == old(ctx).modes.modeline.after(*e),
        final(ctx).modes.ui == old(ctx).modes.ui,
        final(ctx).modes.buff == old(ctx).modes.buff,
        final(ctx).modes.core == old(ctx).modes.core,
        *final(final(ctx).modes) == *final(old(ctx).modes),
{
    if let AppEvent::Move(x, y) = e {
        ctx.modes.modeline.col = ctx.modes.modeline.col.wrapping_add_signed(*y as isize);
        ctx.modes.modeline.row = ctx.modes.modeline.row.wrapping_add_signed(*x as isize);
    }
}

} // verus!
