//! Windows over buffers, and the recorder of terminal commands.
//!
//! A [`Window`] caches a list of lines taken from a buffer. A [`Renderer`]
//! collects the commands that render passes write; the caller takes them
//! with [`Renderer::take_commands`] and replays them on the terminal.

use vstd::prelude::*;
use crate::app::buffer::Buffer;
use crate::modes::Cursor;
use crate::text::{line_count, lines_of, range_error, range_text, TextError};

pub mod widgets;

use self::widgets::{
    Command, CommandView, LineView, List, ListView, RendResult, RenderError, UiCtx, Widget,
};

verus! {

/// A [`Window`] with its cached list as a view.
pub struct WindowView {
    /// Identifier of the buffer that the window was last bound to.
    pub buffer: usize,
    pub contents: ListView,
    pub dirty: bool,
    pub rows: usize,
    pub cols: usize,
}

impl WindowView {
    /// The window bound to buffer `buff_id`, whose text is `text` and whose
    /// cursor is on row `row`: the cached list gets one line for each line of
    /// the text in rows `row..row + rows`, and filler lines up to `rows`.
    pub open spec fn bound(self, buff_id: usize, text: Seq<char>, row: int) -> WindowView {
        WindowView {
            buffer: buff_id,
            contents: ListView::of_texts(lines_of(range_text(text, row, row + self.rows))).expand(
                self.rows as nat,
            ),
            ..self
        }
    }
}

/// A window of more rows than the text has lines, bound with the cursor on
/// the first line, holds one row for each line of the text and fillers on
/// all rows below, as many rows in all as the window has.
pub proof fn lemma_short_text_is_padded(window: WindowView, buff_id: usize, text: Seq<char>)
    requires
        window.rows > line_count(text),
    ensures
        range_error(text, 0, window.rows as int) is None,
        window.bound(buff_id, text, 0).contents.lines.len() == window.rows,
        forall|k: int|
            0 <= k < line_count(text) ==> window.bound(buff_id, text, 0).contents.lines[k]
                == LineView::of_text(crate::text::line_text(text, k as nat)),
        forall|k: int|
            line_count(text) <= k < window.rows ==> window.bound(buff_id, text, 0).contents.lines[k]
                == LineView::filler(),
{
    crate::text::lemma_padded_range_is_whole_text(text, window.rows as int);
}

/// A region of the screen that shows a buffer.
///
/// The window holds a snapshot: a change of the buffer shows only after the
/// window is bound to it again.
#[derive(Debug)]
pub struct Window {
    buffer: usize,
    contents: List,
    did_update: bool,
    rows: usize,
    cols: usize,
}

impl View for Window {
    type V = WindowView;

    closed spec fn view(&self) -> WindowView {
        WindowView {
            buffer: self.buffer,
            contents: self.contents@,
            dirty: self.did_update,
            rows: self.rows,
            cols: self.cols,
        }
    }
}

impl Default for Window {
    /// A clean window of no rows and no columns that shows nothing.
    fn default() -> (window: Self)
        ensures
            window@ == (WindowView {
                buffer: 0,
                contents: ListView { lines: seq![], dirty: false },
                dirty: false,
                rows: 0,
                cols: 0,
            }),
    {
        Window { buffer: 0, contents: List::default(), did_update: false, rows: 0, cols: 0 }
    }
}

impl Window {
    /// Binds the window to `buffer` and takes its rows from the buffer's
    /// text, starting at the cursor's row. Where the buffer cannot give that
    /// range the window stays as it is.
    pub fn set_buffer(&mut self, buff_id: usize, buffer: &Buffer) -> (r: Result<(), TextError>)
        requires
            buffer.cursor().row + old(self)@.rows <= usize::MAX,
        ensures
            match r {
                Ok(()) => {
                    &&& range_error(
                        buffer.text(),
                        buffer.cursor().row as int,
                        buffer.cursor().row + old(self)@.rows,
                    ) is None
                    &&& final(self)@ == old(self)@.bound(
                        buff_id,
                        buffer.text(),
                        buffer.cursor().row as int,
                    )
                    &&& final(self)@.contents.lines.len() >= old(self)@.rows
                },
                Err(e) => {
                    &&& range_error(
                        buffer.text(),
                        buffer.cursor().row as int,
                        buffer.cursor().row + old(self)@.rows,
                    ) == Some(e)
                    &&& final(self)@ == old(self)@
                },
            },
    {
        let row = buffer.get_cursor().row;
        let lines = match buffer.get_lines_range(row, row + self.rows) {
            Ok(lines) => lines,
            Err(e) => {
                return Err(e);
            },
        };
        let mut list = List::from(lines);
        list.expand(self.rows);
        self.buffer = buff_id;
        self.contents = list;
        Ok(())
    }

    /// The cached list.
    pub fn contents(&self) -> (list: &List)
        ensures
            list@ == self@.contents,
    {
        &self.contents
    }

    /// Identifier of the buffer that the window was last bound to.
    pub fn buffer_id(&self) -> (id: usize)
        ensures
            id == self@.buffer,
    {
        self.buffer
    }

    pub fn rows(&self) -> (rows: usize)
        ensures
            rows == self@.rows,
    {
        self.rows
    }

    pub fn cols(&self) -> (cols: usize)
        ensures
            cols == self@.cols,
    {
        self.cols
    }

    /// What the window is made of is its cached list.
    pub proof fn lemma_components(&self)
        ensures
            self.components()@ == self@.contents,
    {
    }

    /// Sets the size of the window. The cached list is not taken anew.
    pub fn resize(&mut self, rows: usize, cols: usize)
        ensures
            final(self)@ == (WindowView { rows, cols, ..old(self)@ }),
    {
        self.rows = rows;
        self.cols = cols;
    }
}

impl Widget for Window {
    type Components = List;

    open spec fn dirty(&self) -> bool {
        self@.dirty
    }

    open spec fn height(&self) -> nat {
        self@.contents.lines.len()
    }

    open spec fn commands(&self, col: u16, row: u16) -> Seq<CommandView> {
        widgets::lines_commands(self@.contents.lines, col, row as int)
    }

    open spec fn rendered(&self, after: &Self) -> bool {
        after@ == (WindowView { contents: self@.contents.clean(), dirty: false, ..self@ })
    }

    closed spec fn components(&self) -> List {
        self.contents
    }

    fn did_update(&self) -> (b: bool) {
        self.did_update
    }

    /// Renders the cached list. Where that succeeds every flag of the window
    /// is down.
    fn render(&mut self, ui_ctx: &mut UiCtx) -> (r: RendResult) {
        match self.contents.render(ui_ctx) {
            Ok(()) => {
                self.did_update = false;
                Ok(())
            },
            Err(e) => Err(e),
        }
    }

    /// Lets `cb` change the cached list, and marks the window dirty. The
    /// binding and the size stay as they are.
    fn update<F: FnMut(&mut List)>(&mut self, cb: F)
        ensures
            final(self)@ == (WindowView {
                contents: final(self).components()@,
                dirty: true,
                ..old(self)@
            }),
    {
        let mut cb = cb;
        cb(&mut self.contents);
        self.did_update = true;
    }
}

/// A [`UI`] with its windows as views.
pub struct UiView {
    pub widgets: ListView,
    pub windows: Seq<WindowView>,
    pub active: usize,
}

impl UiView {
    /// The active window.
    pub open spec fn screen(self) -> WindowView {
        self.windows[self.active as int]
    }

    /// What a render pass writes for the active window from the top left of
    /// the terminal.
    pub open spec fn screen_commands(self) -> Seq<CommandView> {
        widgets::lines_commands(self.screen().contents.lines, 0, 0)
    }

    /// The windows after a render pass over the active one: every flag of
    /// that window is down.
    pub open spec fn painted(self) -> UiView {
        UiView {
            windows: self.windows.update(
                self.active as int,
                WindowView {
                    contents: self.screen().contents.clean(),
                    dirty: false,
                    ..self.screen()
                },
            ),
            ..self
        }
    }
}

/// The windows of the screen, one of them active.
#[derive(Debug)]
pub struct UI {
    widgets: List,
    windows: Vec<Window>,
    active_window: usize,
}

impl View for UI {
    type V = UiView;

    closed spec fn view(&self) -> UiView {
        UiView {
            widgets: self.widgets@,
            windows: Seq::new(self.windows.len() as nat, |i: int| self.windows[i]@),
            active: self.active_window,
        }
    }
}

impl UI {
    /// The active window exists.
    #[verifier::type_invariant]
    spec fn active_exists(self) -> bool {
        self.active_window < self.windows.len()
    }

    /// Whether the active window exists. This holds of every `UI`.
    pub open spec fn wf(&self) -> bool {
        self@.active < self@.windows.len()
    }


    /// One window of `rows` rows and `cols` columns, which is active and
    /// shows nothing yet.
    pub fn new(cols: u16, rows: u16) -> (ui: Self)
        ensures
            ui.wf(),
            ui@ == (UiView {
                widgets: ListView { lines: seq![], dirty: false },
                windows: seq![
                    WindowView {
                        buffer: 0,
                        contents: ListView { lines: seq![], dirty: false },
                        dirty: false,
                        rows: rows as usize,
                        cols: cols as usize,
                    },
                ],
                active: 0,
            }),
    {
        let mut main_window = Window::default();
        main_window.resize(rows as usize, cols as usize);
        let mut windows: Vec<Window> = Vec::new();
        windows.push(main_window);
        let ui = UI { widgets: List::default(), windows, active_window: 0 };
        assert(ui@.windows =~= seq![main_window@]);
        ui
    }

    /// The active window. What is done to it is done to the window in place.
    pub fn get_active_window(&mut self) -> (window: &mut Window)
        ensures
            old(self).wf(),
            window@ == old(self)@.windows[old(self)@.active as int],
            final(self)@.windows == old(self)@.windows.update(
                old(self)@.active as int,
                final(window)@,
            ),
            final(self)@.widgets == old(self)@.widgets,
            final(self)@.active == old(self)@.active,
    {
        proof {
            use_type_invariant(&*self);
        }
        &mut self.windows[self.active_window]
    }

    /// What is shown on the screen: the active window.
    pub fn screen(&mut self) -> (window: &mut Window)
        ensures
            old(self).wf(),
            window@ == old(self)@.windows[old(self)@.active as int],
            final(self)@.windows == old(self)@.windows.update(
                old(self)@.active as int,
                final(window)@,
            ),
            final(self)@.widgets == old(self)@.widgets,
            final(self)@.active == old(self)@.active,
    {
        self.get_active_window()
    }
}

/// Collects the terminal commands that are due.
///
/// Nothing is sent from here. The commands stay pending until the caller
/// takes them with [`Renderer::take_commands`].
#[derive(Debug)]
pub struct Renderer {
    commands: Vec<Command>,
    columns: u16,
}

impl Renderer {
    /// The commands that are due, oldest first.
    pub closed spec fn pending(&self) -> Seq<CommandView> {
        self.commands.deep_view()
    }

    /// Width of the terminal.
    pub closed spec fn columns(&self) -> u16 {
        self.columns
    }

    /// What opens a session: raw input, no line wrap, a hidden caret, a clear
    /// screen, and the caret at the top left.
    pub open spec fn setup() -> Seq<CommandView> {
        seq![
            CommandView::EnableRawMode,
            CommandView::DisableLineWrap,
            CommandView::Hide,
            CommandView::ClearAll,
            CommandView::MoveTo(0, 0),
            CommandView::Flush,
        ]
    }

    /// What ends a session: the caret shown again, and cooked input.
    pub open spec fn teardown() -> Seq<CommandView> {
        seq![CommandView::Show, CommandView::Flush, CommandView::DisableRawMode]
    }

    /// What shows the caret mark at column `col` of row `row`: the position
    /// is saved, the mark is printed and the position is restored.
    pub open spec fn cursor_commands(col: u16, row: u16) -> Seq<CommandView> {
        seq![
            CommandView::SavePosition,
            CommandView::MoveTo(col, row),
            CommandView::Print(seq!['_']),
            CommandView::RestorePosition,
            CommandView::Flush,
        ]
    }

    /// A renderer for a terminal of `columns` columns, with the commands
    /// that open the session pending.
    pub fn new(columns: u16) -> (renderer: Self)
        ensures
            renderer.pending() == Self::setup(),
            renderer.columns() == columns,
    {
        let mut commands: Vec<Command> = Vec::new();
        commands.push(Command::EnableRawMode);
        commands.push(Command::DisableLineWrap);
        commands.push(Command::Hide);
        commands.push(Command::ClearAll);
        commands.push(Command::MoveTo(0, 0));
        commands.push(Command::Flush);
        assert(commands.deep_view() =~= Self::setup());
        Renderer { commands, columns }
    }

    /// Renders `screen` from the top left of the terminal and adds what it
    /// wrote, and a flush, to the pending commands. Where the screen has more
    /// rows than can be counted nothing is done.
    pub fn render<T: Widget>(&mut self, screen: &mut T) -> (r: RendResult)
        ensures
            final(self).columns() == old(self).columns(),
            match r {
                Ok(()) => {
                    &&& old(screen).height() < u16::MAX
                    &&& final(self).pending() == old(self).pending() + old(screen).commands(0, 0)
                        + seq![CommandView::Flush]
                    &&& old(screen).rendered(final(screen))
                    &&& !final(screen).dirty()
                    &&& final(screen).height() == old(screen).height()
                },
                Err(e) => {
                    &&& old(screen).height() >= u16::MAX
                    &&& e == RenderError::RowOverflow
                    &&& final(self).pending() == old(self).pending()
                    &&& *final(screen) == *old(screen)
                },
            },
    {
        let mut ctx = UiCtx {
            out: Vec::new(),
            row_start: 0,
            row_end: 1,
            col_start: 0,
            col_end: self.columns,
        };
        assert(ctx.out.deep_view() =~= seq![]);
        match screen.render(&mut ctx) {
            Ok(()) => {},
            Err(e) => {
                return Err(e);
            },
        }
        ctx.emit(Command::Flush);
        let ghost before = self.commands.deep_view();
        let ghost added = ctx.out.deep_view();
        let mut out = ctx.out;
        self.commands.append(&mut out);
        assert(self.commands.deep_view() =~= before + added);
        assert(added =~= old(screen).commands(0, 0) + seq![CommandView::Flush]);
        Ok(())
    }

    /// Adds the commands that show the caret mark at `cursor`, one row down
    /// to leave the header row free. Where that place does not fit in `u16`
    /// nothing is done.
    pub fn cursor(&mut self, cursor: &Cursor) -> (r: RendResult)
        ensures
            final(self).columns() == old(self).columns(),
            match r {
                Ok(()) => {
                    &&& cursor.row < u16::MAX
                    &&& cursor.col <= u16::MAX
                    &&& final(self).pending() == old(self).pending() + Self::cursor_commands(
                        cursor.col as u16,
                        (cursor.row + 1) as u16,
                    )
                },
                Err(e) => {
                    &&& cursor.row >= u16::MAX || cursor.col > u16::MAX
                    &&& e == RenderError::CursorOverflow
                    &&& final(self).pending() == old(self).pending()
                },
            },
    {
        let (r, c) = match cursor.as_u16() {
            Some(rc) => rc,
            None => {
                return Err(RenderError::CursorOverflow);
            },
        };
        if r == u16::MAX {
            return Err(RenderError::CursorOverflow);
        }
        let ghost before = self.commands.deep_view();
        self.commands.push(Command::SavePosition);
        self.commands.push(Command::MoveTo(c, r + 1));
        self.commands.push(Command::Print("_".to_string()));
        self.commands.push(Command::RestorePosition);
        self.commands.push(Command::Flush);
        proof {
            reveal_strlit("_");
            assert("_"@ =~= seq!['_']);
            assert(self.commands.deep_view() =~= before + Self::cursor_commands(c, (r + 1) as u16));
        }
        Ok(())
    }

    /// Adds the commands that end the session.
    pub fn close(&mut self)
        ensures
            final(self).columns() == old(self).columns(),
            final(self).pending() == old(self).pending() + Self::teardown(),
    {
        let ghost before = self.commands.deep_view();
        self.commands.push(Command::Show);
        self.commands.push(Command::Flush);
        self.commands.push(Command::DisableRawMode);
        assert(self.commands.deep_view() =~= before + Self::teardown());
    }

    /// Hands out the pending commands, oldest first, and leaves none pending.
    pub fn take_commands(&mut self) -> (commands: Vec<Command>)
        ensures
            commands.deep_view() == old(self).pending(),
            final(self).pending() == Seq::<CommandView>::empty(),
            final(self).columns() == old(self).columns(),
    {
        let mut commands: Vec<Command> = Vec::new();
        commands.append(&mut self.commands);
        assert(commands.deep_view() =~= old(self).pending());
        assert(self.commands.deep_view() =~= Seq::<CommandView>::empty());
        commands
    }
}

} // verus!
