//! Buffers that keep their text in a [`TextStore`].

use vstd::prelude::*;
use crate::modes::Cursor;
use crate::text::{pad_count, range_error, range_text, rope_text, TextError, TextStore};

pub use crate::text::Lines;

verus! {

/// A text with a cursor, and the window that shows it, if one does.
#[derive(Debug)]
pub struct Buffer {
    text: TextStore,
    /// Handle of a parsed document, for later use.
    doc: Option<i32>,
    /// The window that shows the buffer. This is a back-reference only: the
    /// window is not owned.
    window: Option<usize>,
    cursor: Cursor,
}

impl Default for Buffer {
    /// An empty buffer that no window shows.
    fn default() -> (buffer: Self)
        ensures
            buffer.text() == Seq::<char>::empty(),
            buffer.doc() is None,
            buffer.window() is None,
            buffer.cursor() == (Cursor { row: 0, col: 0 }),
    {
        Buffer::new(ropey::Rope::new(), None, None)
    }
}

impl Buffer {
    /// The characters of the buffer.
    pub closed spec fn text(&self) -> Seq<char> {
        self.text@
    }

    pub closed spec fn doc(&self) -> Option<i32> {
        self.doc
    }

    pub closed spec fn window(&self) -> Option<usize> {
        self.window
    }

    pub closed spec fn cursor(&self) -> Cursor {
        self.cursor
    }

    /// A buffer that holds what `text` holds, with the cursor at the start.
    pub fn new(text: ropey::Rope, doc: Option<i32>, window: Option<usize>) -> (buffer: Self)
        ensures
            buffer.text() == rope_text(text),
            buffer.doc() == doc,
            buffer.window() == window,
            buffer.cursor() == (Cursor { row: 0, col: 0 }),
    {
        Buffer { text: TextStore::new(text), doc, window, cursor: Cursor::default() }
    }

    /// A builder with nothing set.
    pub fn build() -> (builder: BufferBuilder)
        ensures
            builder.text() is None,
            builder.doc() is None,
            builder.window() is None,
    {
        BufferBuilder { text: None, doc: None, window: None }
    }

    pub fn open_in_window(&mut self, win_id: usize)
        ensures
            final(self).window() == Some(win_id),
            final(self).text() == old(self).text(),
            final(self).doc() == old(self).doc(),
            final(self).cursor() == old(self).cursor(),
    {
        self.window = Some(win_id);
    }

    pub fn remove_from_window(&mut self)
        ensures
            final(self).window() is None,
            final(self).text() == old(self).text(),
            final(self).doc() == old(self).doc(),
            final(self).cursor() == old(self).cursor(),
    {
        self.window = None;
    }

    /// The window that shows the buffer, if one does.
    pub fn window_id(&self) -> (id: Option<usize>)
        ensures
            id == self.window(),
    {
        self.window
    }

    pub fn get_cursor(&self) -> (cursor: &Cursor)
        ensures
            *cursor == self.cursor(),
    {
        &self.cursor
    }

    /// Puts the cursor at `cursor`. The position is not held against the
    /// text: a row beyond the last line makes [`Buffer::get_lines_range`]
    /// from that row fail.
    pub fn set_cursor(&mut self, cursor: Cursor)
        ensures
            final(self).cursor() == cursor,
            final(self).text() == old(self).text(),
            final(self).doc() == old(self).doc(),
            final(self).window() == old(self).window(),
    {
        self.cursor = cursor;
    }

    /// The rows for lines `start..end` of the buffer: see
    /// [`TextStore::slice_lines`].
    pub fn get_lines_range(&self, start: usize, end: usize) -> (r: Result<Lines<'_>, TextError>)
        ensures
            match r {
                Ok(lines) => {
                    &&& range_error(self.text(), start as int, end as int) is None
                    &&& lines.empty == pad_count(self.text(), start as int, end as int)
                    &&& lines.text() == range_text(self.text(), start as int, end as int)
                },
                Err(e) => range_error(self.text(), start as int, end as int) == Some(e),
            },
    {
        self.text.slice_lines(start, end)
    }
}

/// Collects what a [`Buffer`] is made from.
#[derive(Debug)]
pub struct BufferBuilder {
    text: Option<ropey::Rope>,
    doc: Option<i32>,
    window: Option<usize>,
}

impl Default for BufferBuilder {
    fn default() -> (builder: Self)
        ensures
            builder.text() is None,
            builder.doc() is None,
            builder.window() is None,
    {
        Buffer::build()
    }
}

impl BufferBuilder {
    /// The text that was set, if one was.
    pub closed spec fn text(&self) -> Option<Seq<char>> {
        match self.text {
            Some(rope) => Some(rope_text(rope)),
            None => None,
        }
    }

    pub closed spec fn doc(&self) -> Option<i32> {
        self.doc
    }

    pub closed spec fn window(&self) -> Option<usize> {
        self.window
    }

    /// The buffer that was described. A text must have been set.
    pub fn create(self) -> (buffer: Buffer)
        requires
            self.text() is Some,
        ensures
            Some(buffer.text()) == self.text(),
            buffer.doc() == self.doc(),
            buffer.window() == self.window(),
            buffer.cursor() == (Cursor { row: 0, col: 0 }),
    {
        Buffer::new(self.text.unwrap(), self.doc, self.window)
    }

    pub fn with_text(self, text: String) -> (builder: Self)
        ensures
            builder.text() == Some(text@),
            builder.doc() == self.doc(),
            builder.window() == self.window(),
    {
        let mut builder = self;
        builder.text = Some(ropey::Rope::from_str(text.as_str()));
        builder
    }

    pub fn with_window(self, win: usize) -> (builder: Self)
        ensures
            builder.window() == Some(win),
            builder.text() == self.text(),
            builder.doc() == self.doc(),
    {
        let mut builder = self;
        builder.window = Some(win);
        builder
    }
}

} // verus!
