//! The widget tree: spans in lines in lists, each node with a dirty flag.
//!
//! A render pass writes terminal commands into a [`UiCtx`] for the nodes that
//! changed since the last pass, and leaves every node it visited clean.

use vstd::prelude::*;
use std::str::FromStr;
use vstd::std_specs::convert::FromSpecImpl;
use crate::text::{lines_of, Lines};

verus! {

/// A terminal colour.
#[derive(Copy, Clone, Debug, PartialEq, Eq, Structural)]
pub enum Color {
    Reset,
    Black,
    DarkGrey,
    Red,
    DarkRed,
    Green,
    DarkGreen,
    Yellow,
    DarkYellow,
    Blue,
    DarkBlue,
    Magenta,
    DarkMagenta,
    Cyan,
    DarkCyan,
    White,
    Grey,
    Rgb { r: u8, g: u8, b: u8 },
    AnsiValue(u8),
}

/// A terminal text attribute.
#[derive(Copy, Clone, Debug, PartialEq, Eq, Structural)]
pub enum Attribute {
    Reset,
    Bold,
    Dim,
    Italic,
    Underlined,
    DoubleUnderlined,
    Undercurled,
    Underdotted,
    Underdashed,
    SlowBlink,
    RapidBlink,
    Reverse,
    Hidden,
    CrossedOut,
    Fraktur,
    NoBold,
    NormalIntensity,
    NoItalic,
    NoUnderline,
    NoBlink,
    NoReverse,
    NoHidden,
    NotCrossedOut,
    Framed,
    Encircled,
    OverLined,
    NotFramedOrEncircled,
    NotOverLined,
}

/// One instruction for the terminal. `MoveTo` holds the column, then the row.
#[derive(Debug, PartialEq, Eq)]
pub enum Command {
    EnableRawMode,
    DisableRawMode,
    DisableLineWrap,
    Hide,
    Show,
    ClearAll,
    MoveTo(u16, u16),
    SavePosition,
    RestorePosition,
    SetForegroundColor(Color),
    SetBackgroundColor(Color),
    SetAttribute(Attribute),
    Print(String),
    Flush,
}

/// A [`Command`] with its text as a sequence of characters.
pub enum CommandView {
    EnableRawMode,
    DisableRawMode,
    DisableLineWrap,
    Hide,
    Show,
    ClearAll,
    MoveTo(u16, u16),
    SavePosition,
    RestorePosition,
    SetForegroundColor(Color),
    SetBackgroundColor(Color),
    SetAttribute(Attribute),
    Print(Seq<char>),
    Flush,
}

impl View for Command {
    type V = CommandView;

    open spec fn view(&self) -> CommandView {
        match *self {
            Command::EnableRawMode => CommandView::EnableRawMode,
            Command::DisableRawMode => CommandView::DisableRawMode,
            Command::DisableLineWrap => CommandView::DisableLineWrap,
            Command::Hide => CommandView::Hide,
            Command::Show => CommandView::Show,
            Command::ClearAll => CommandView::ClearAll,
            Command::MoveTo(col, row) => CommandView::MoveTo(col, row),
            Command::SavePosition => CommandView::SavePosition,
            Command::RestorePosition => CommandView::RestorePosition,
            Command::SetForegroundColor(c) => CommandView::SetForegroundColor(c),
            Command::SetBackgroundColor(c) => CommandView::SetBackgroundColor(c),
            Command::SetAttribute(a) => CommandView::SetAttribute(a),
            Command::Print(text) => CommandView::Print(text@),
            Command::Flush => CommandView::Flush,
        }
    }
}

impl DeepView for Command {
    type V = CommandView;

    open spec fn deep_view(&self) -> CommandView {
        self@
    }
}

/// Why a render pass was not made.
#[derive(Copy, Clone, Debug, PartialEq, Eq, Structural)]
pub enum RenderError {
    /// The pass would move a row counter beyond `u16::MAX`.
    RowOverflow,
    /// The cursor cannot be shown at a position that fits in `u16`.
    CursorOverflow,
}

pub type RendResult = Result<(), RenderError>;

/// Where a render pass writes: the commands written so far, and the screen
/// region at which the next node goes.
#[derive(Debug)]
pub struct UiCtx {
    pub out: Vec<Command>,
    pub row_start: u16,
    pub row_end: u16,
    pub col_start: u16,
    pub col_end: u16,
}

impl UiCtx {
    /// Adds one command at the end of `out`.
    pub fn emit(&mut self, command: Command)
        ensures
            final(self).out.deep_view() == old(self).out.deep_view().push(command@),
            final(self).row_start == old(self).row_start,
            final(self).row_end == old(self).row_end,
            final(self).col_start == old(self).col_start,
            final(self).col_end == old(self).col_end,
    {
        self.out.push(command);
        assert(self.out.deep_view() =~= old(self).out.deep_view().push(command@));
    }

    /// Whether the row counters can move down by `rows`.
    pub open spec fn has_rows(&self, rows: nat) -> bool {
        self.row_start + rows <= u16::MAX && self.row_end + rows <= u16::MAX
    }

    /// Whether `after` is this context with `commands` added to its output
    /// and its row counters moved down by `rows`.
    pub open spec fn advanced(&self, after: &UiCtx, commands: Seq<CommandView>, rows: nat) -> bool {
        &&& after.out.deep_view() == self.out.deep_view() + commands
        &&& after.row_start == self.row_start + rows
        &&& after.row_end == self.row_end + rows
        &&& after.col_start == self.col_start
        &&& after.col_end == self.col_end
    }
}

/// A node of the widget tree.
pub trait Widget: Sized {
    /// What the node is made of.
    type Components;

    /// Whether the node changed since its last render pass.
    spec fn dirty(&self) -> bool;

    /// Number of screen rows by which a render pass moves on.
    spec fn height(&self) -> nat;

    /// What a render pass writes for the node when it starts at column `col`
    /// and row `row`.
    spec fn commands(&self, col: u16, row: u16) -> Seq<CommandView>;

    /// Whether `after` is the node as a render pass leaves it.
    spec fn rendered(&self, after: &Self) -> bool;

    /// The parts of the node that [`Widget::update`] hands to its callback.
    spec fn components(&self) -> Self::Components;

    /// Writes the commands for the parts of the node that are dirty, moves
    /// the row counters of `ui_ctx` down by the node's height and leaves the
    /// node clean. Where the counters cannot move that far nothing is done.
    fn render(&mut self, ui_ctx: &mut UiCtx) -> (r: RendResult)
        ensures
            match r {
                Ok(()) => {
                    &&& old(ui_ctx).has_rows(old(self).height())
                    &&& old(ui_ctx).advanced(
                        final(ui_ctx),
                        old(self).commands(old(ui_ctx).col_start, old(ui_ctx).row_start),
                        old(self).height(),
                    )
                    &&& old(self).rendered(final(self))
                    &&& !final(self).dirty()
                    &&& final(self).height() == old(self).height()
                },
                Err(e) => {
                    &&& !old(ui_ctx).has_rows(old(self).height())
                    &&& e == RenderError::RowOverflow
                    &&& *final(self) == *old(self)
                    &&& *final(ui_ctx) == *old(ui_ctx)
                },
            },
    ;

    fn did_update(&self) -> (b: bool)
        ensures
            b == self.dirty(),
    ;

    /// Lets `cb` change what the node is made of, and marks the node dirty.
    fn update<F: FnMut(&mut Self::Components)>(&mut self, cb: F)
        requires
            forall|parts: &mut Self::Components|
                *parts == old(self).components() ==> cb.requires((parts,)),
        ensures
            final(self).dirty(),
            exists|parts: &mut Self::Components|
                *parts == old(self).components() && *final(parts) == final(self).components()
                    && cb.ensures((parts,), ()),
    ;
}

/// A [`Span`] with its text as a sequence of characters.
pub struct SpanView {
    pub msg: Seq<char>,
    pub style: Option<Attribute>,
    pub fg: Option<Color>,
    pub bg: Option<Color>,
}

impl SpanView {
    /// A span of plain text.
    pub open spec fn plain(msg: Seq<char>) -> SpanView {
        SpanView { msg, style: None, fg: None, bg: None }
    }

    /// What is written for the span: its colours and attribute where it has
    /// them, its text, then for each of the three that was set what takes it
    /// back: black for the foreground, and the reset value for the background
    /// and for the attribute.
    pub open spec fn commands(self) -> Seq<CommandView> {
        let fg = if self.fg is Some {
            seq![CommandView::SetForegroundColor(self.fg->0)]
        } else {
            seq![]
        };
        let bg = if self.bg is Some {
            seq![CommandView::SetBackgroundColor(self.bg->0)]
        } else {
            seq![]
        };
        let style = if self.style is Some {
            seq![CommandView::SetAttribute(self.style->0)]
        } else {
            seq![]
        };
        let fg_reset = if self.fg is Some {
            seq![CommandView::SetForegroundColor(Color::Black)]
        } else {
            seq![]
        };
        let bg_reset = if self.bg is Some {
            seq![CommandView::SetBackgroundColor(Color::Reset)]
        } else {
            seq![]
        };
        let style_reset = if self.style is Some {
            seq![CommandView::SetAttribute(Attribute::Reset)]
        } else {
            seq![]
        };
        fg + bg + style + seq![CommandView::Print(self.msg)] + fg_reset + bg_reset + style_reset
    }
}

/// What is written for a row of spans, from left to right.
pub open spec fn spans_commands(spans: Seq<SpanView>) -> Seq<CommandView>
    decreases spans.len(),
{
    if spans.len() == 0 {
        seq![]
    } else {
        spans_commands(spans.drop_last()) + spans.last().commands()
    }
}

/// A piece of text with an optional attribute and optional colours.
#[derive(Debug, PartialEq, Eq)]
pub struct Span {
    msg: String,
    style: Option<Attribute>,
    fg: Option<Color>,
    bg: Option<Color>,
}

impl View for Span {
    type V = SpanView;

    closed spec fn view(&self) -> SpanView {
        SpanView { msg: self.msg@, style: self.style, fg: self.fg, bg: self.bg }
    }
}

impl DeepView for Span {
    type V = SpanView;

    open spec fn deep_view(&self) -> SpanView {
        self@
    }
}

impl Default for Span {
    fn default() -> (span: Self)
        ensures
            span@ == SpanView::plain(Seq::empty()),
    {
        Span::new(String::new())
    }
}

impl Span {
    pub fn new(msg: String) -> (span: Self)
        ensures
            span@ == SpanView::plain(msg@),
    {
        Span { msg, style: None, fg: None, bg: None }
    }

    pub fn style(self, atrr: Attribute) -> (span: Self)
        ensures
            span@ == (SpanView { style: Some(atrr), ..self@ }),
    {
        let mut span = self;
        span.style = Some(atrr);
        span
    }

    pub fn color(self, col: Color) -> (span: Self)
        ensures
            span@ == (SpanView { fg: Some(col), ..self@ }),
    {
        let mut span = self;
        span.fg = Some(col);
        span
    }

    /// Writes the span's commands into `ui_ctx`.
    fn render(&self, ui_ctx: &mut UiCtx)
        ensures
            old(ui_ctx).advanced(final(ui_ctx), self@.commands(), 0),
    {
        if let Some(c) = self.fg {
            ui_ctx.emit(Command::SetForegroundColor(c));
        }
        if let Some(c) = self.bg {
            ui_ctx.emit(Command::SetBackgroundColor(c));
        }
        if let Some(a) = self.style {
            ui_ctx.emit(Command::SetAttribute(a));
        }
        ui_ctx.emit(Command::Print(self.msg.clone()));
        if self.fg.is_some() {
            ui_ctx.emit(Command::SetForegroundColor(Color::Black));
        }
        if self.bg.is_some() {
            ui_ctx.emit(Command::SetBackgroundColor(Color::Reset));
        }
        if self.style.is_some() {
            ui_ctx.emit(Command::SetAttribute(Attribute::Reset));
        }
        assert(ui_ctx.out.deep_view() =~= old(ui_ctx).out.deep_view() + self@.commands());
    }
}

/// The error of parsing a widget from text. Parsing never fails.
#[derive(Debug)]
pub struct WigError {}

impl FromStr for Span {
    type Err = WigError;

    fn from_str(s: &str) -> (r: Result<Self, WigError>)
        ensures
            r matches Ok(span) && span@ == SpanView::plain(s@),
    {
        Ok(Span::new(s.to_string()))
    }
}

/// A [`Line`] as a sequence of span views and a dirty flag.
pub struct LineView {
    pub spans: Seq<SpanView>,
    pub dirty: bool,
}

impl LineView {
    /// A dirty line of one plain span that holds `text`.
    pub open spec fn of_text(text: Seq<char>) -> LineView {
        LineView { spans: seq![SpanView::plain(text)], dirty: true }
    }

    /// The line that fills a row below the end of the text: a cyan tilde.
    pub open spec fn filler() -> LineView {
        LineView {
            spans: seq![SpanView { msg: seq!['~'], style: None, fg: Some(Color::Cyan), bg: None }],
            dirty: true,
        }
    }

    /// The same line with its dirty flag down.
    pub open spec fn clean(self) -> LineView {
        LineView { dirty: false, ..self }
    }

    /// What a render pass writes for the line at column `col` and row `row`:
    /// nothing for a clean line; for a dirty one a move to that place, then
    /// the spans.
    pub open spec fn commands(self, col: u16, row: u16) -> Seq<CommandView> {
        if self.dirty {
            seq![CommandView::MoveTo(col, row)] + spans_commands(self.spans)
        } else {
            seq![]
        }
    }
}

/// A row of spans.
#[derive(Debug, PartialEq, Eq)]
pub struct Line {
    pub spans: Vec<Span>,
    pub did_update: bool,
}

impl View for Line {
    type V = LineView;

    open spec fn view(&self) -> LineView {
        LineView { spans: self.spans.deep_view(), dirty: self.did_update }
    }
}

impl DeepView for Line {
    type V = LineView;

    open spec fn deep_view(&self) -> LineView {
        self@
    }
}

impl Default for Line {
    /// A clean line without spans.
    fn default() -> (line: Self)
        ensures
            line@ == (LineView { spans: seq![], dirty: false }),
    {
        let line = Line { spans: Vec::new(), did_update: false };
        assert(line@.spans =~= seq![]);
        line
    }
}

impl Line {
    /// A dirty line of the given spans.
    pub fn new(spans: Vec<Span>) -> (line: Self)
        ensures
            line.spans == spans,
            line.did_update,
    {
        Line { spans, did_update: true }
    }

    /// The line that fills a row below the end of the text.
    pub fn empty() -> (line: Self)
        ensures
            line@ == LineView::filler(),
    {
        let tilde = Span::new("~".to_string()).color(Color::Cyan);
        let mut spans: Vec<Span> = Vec::new();
        spans.push(tilde);
        let line = Line { spans, did_update: true };
        proof {
            reveal_strlit("~");
            assert("~"@ =~= seq!['~']);
            assert(line@.spans =~= LineView::filler().spans);
        }
        line
    }
}

impl FromStr for Line {
    type Err = WigError;

    /// A dirty line of one plain span that holds `s`.
    fn from_str(s: &str) -> (r: Result<Self, WigError>)
        ensures
            r matches Ok(line) && line@ == LineView::of_text(s@),
    {
        let mut spans: Vec<Span> = Vec::new();
        spans.push(Span::new(s.to_string()));
        let line = Line::new(spans);
        assert(line@.spans =~= LineView::of_text(s@).spans);
        Ok(line)
    }
}

impl Widget for Line {
    type Components = Vec<Span>;

    open spec fn dirty(&self) -> bool {
        self@.dirty
    }

    open spec fn height(&self) -> nat {
        0
    }

    open spec fn commands(&self, col: u16, row: u16) -> Seq<CommandView> {
        self@.commands(col, row)
    }

    open spec fn rendered(&self, after: &Self) -> bool {
        after.spans == self.spans && !after.did_update
    }

    open spec fn components(&self) -> Vec<Span> {
        self.spans
    }

    fn did_update(&self) -> (b: bool) {
        self.did_update
    }

    /// Never fails.
    fn render(&mut self, ui_ctx: &mut UiCtx) -> (r: RendResult)
        ensures
            r is Ok,
    {
        if !self.did_update {
            assert(ui_ctx.out.deep_view() =~= old(ui_ctx).out.deep_view() + seq![]);
            return Ok(());
        }
        ui_ctx.emit(Command::MoveTo(ui_ctx.col_start, ui_ctx.row_start));
        let ghost views = self.spans.deep_view();
        let ghost start = ui_ctx.out.deep_view();
        let mut i: usize = 0;
        while i < self.spans.len()
            invariant
                i <= self.spans.len(),
                self.spans == old(self).spans,
                views == self.spans.deep_view(),
                ui_ctx.out.deep_view() == start + spans_commands(views.take(i as int)),
                ui_ctx.row_start == old(ui_ctx).row_start,
                ui_ctx.row_end == old(ui_ctx).row_end,
                ui_ctx.col_start == old(ui_ctx).col_start,
                ui_ctx.col_end == old(ui_ctx).col_end,
            decreases self.spans.len() - i,
        {
            self.spans[i].render(ui_ctx);
            proof {
                assert(views.take(i + 1).drop_last() =~= views.take(i as int));
                assert(views.take(i + 1).last() == self.spans[i as int]@);
                assert(ui_ctx.out.deep_view() =~= start + spans_commands(views.take(i + 1)));
            }
            i = i + 1;
        }
        self.did_update = false;
        proof {
            assert(views.take(i as int) =~= views);
            assert(ui_ctx.out.deep_view() =~= old(ui_ctx).out.deep_view() + old(self)@.commands(
                old(ui_ctx).col_start,
                old(ui_ctx).row_start,
            ));
        }
        Ok(())
    }

    fn update<F: FnMut(&mut Vec<Span>)>(&mut self, cb: F) {
        let mut cb = cb;
        cb(&mut self.spans);
        self.did_update = true;
    }
}

/// A [`List`] as a sequence of line views and a dirty flag.
pub struct ListView {
    pub lines: Seq<LineView>,
    pub dirty: bool,
}

impl ListView {
    /// The list grown to `size` lines by filler lines at the end. A list of
    /// `size` lines or more stays as it is.
    pub open spec fn expand(self, size: nat) -> ListView {
        if self.lines.len() < size {
            ListView {
                lines: self.lines + Seq::new(
                    (size - self.lines.len()) as nat,
                    |k: int| LineView::filler(),
                ),
                ..self
            }
        } else {
            self
        }
    }

    /// The list after a render pass: every flag down.
    pub open spec fn clean(self) -> ListView {
        ListView { lines: self.lines.map_values(|line: LineView| line.clean()), dirty: false }
    }

    /// A dirty list with one line of one plain span for each text.
    pub open spec fn of_texts(texts: Seq<Seq<char>>) -> ListView {
        ListView { lines: texts.map_values(|text: Seq<char>| LineView::of_text(text)), dirty: true }
    }
}

/// What a render pass writes for lines on rows `row`, `row + 1`, and so on,
/// all at column `col`.
pub open spec fn lines_commands(lines: Seq<LineView>, col: u16, row: int) -> Seq<CommandView>
    decreases lines.len(),
{
    if lines.len() == 0 {
        seq![]
    } else {
        lines_commands(lines.drop_last(), col, row) + lines.last().commands(
            col,
            (row + lines.len() - 1) as u16,
        )
    }
}

/// A clean line writes nothing, and a render pass leaves it as it is.
pub proof fn lemma_clean_line_is_skipped(line: LineView, col: u16, row: u16)
    requires
        !line.dirty,
    ensures
        line.commands(col, row) == Seq::<CommandView>::empty(),
        line.clean() == line,
{
}

/// Lines that are all clean write nothing, on whatever rows they stand.
pub proof fn lemma_clean_lines_are_skipped(lines: Seq<LineView>, col: u16, row: int)
    requires
        forall|k: int| 0 <= k < lines.len() ==> !(#[trigger] lines[k]).dirty,
    ensures
        lines_commands(lines, col, row) == Seq::<CommandView>::empty(),
    decreases lines.len(),
{
    if lines.len() > 0 {
        lemma_clean_lines_are_skipped(lines.drop_last(), col, row);
    }
}

/// After a render pass a list writes nothing, until a node is updated: a
/// second pass costs no output.
pub proof fn lemma_rendered_list_is_skipped(list: ListView, col: u16, row: int)
    ensures
        lines_commands(list.clean().lines, col, row) == Seq::<CommandView>::empty(),
        list.clean().clean() == list.clean(),
        list.clean().lines.len() == list.lines.len(),
{
    lemma_clean_lines_are_skipped(list.clean().lines, col, row);
    assert(list.clean().clean().lines =~= list.clean().lines);
}

/// Growing a list to a size that it has reached changes nothing.
pub proof fn lemma_expand_idempotent(list: ListView, n: nat, m: nat)
    requires
        m <= n,
    ensures
        list.expand(n).lines.len() >= n,
        list.expand(n).expand(m) == list.expand(n),
        list.lines.len() >= n ==> list.expand(n) == list,
{
}

/// Growing a list never takes a line away and never changes one.
pub proof fn lemma_expand_grows(list: ListView, n: nat)
    ensures
        list.expand(n).lines.len() == if list.lines.len() < n {
            n
        } else {
            list.lines.len()
        },
        list.expand(n).lines.take(list.lines.len() as int) == list.lines,
        forall|k: int|
            list.lines.len() <= k < list.expand(n).lines.len() ==> list.expand(n).lines[k]
                == LineView::filler(),
{
    assert(list.expand(n).lines.take(list.lines.len() as int) =~= list.lines);
}

/// A column of lines.
#[derive(Debug, PartialEq, Eq)]
pub struct List {
    pub lines: Vec<Line>,
    pub did_update: bool,
}

impl View for List {
    type V = ListView;

    open spec fn view(&self) -> ListView {
        ListView { lines: self.lines.deep_view(), dirty: self.did_update }
    }
}

impl Default for List {
    /// A clean list without lines.
    fn default() -> (list: Self)
        ensures
            list@ == (ListView { lines: seq![], dirty: false }),
    {
        let list = List { lines: Vec::new(), did_update: false };
        assert(list@.lines =~= seq![]);
        list
    }
}

impl List {
    /// A dirty list of the given lines.
    pub fn new(lines: Vec<Line>) -> (list: Self)
        ensures
            list.lines == lines,
            list.did_update,
    {
        List { lines, did_update: true }
    }

    /// Adds filler lines at the end until the list has `size` lines. A list
    /// of `size` lines or more is left as it is.
    pub fn expand(&mut self, size: usize)
        ensures
            final(self)@ == old(self)@.expand(size as nat),
            old(self).lines.len() >= size ==> final(self).lines.len() == old(self).lines.len(),
    {
        let current_size = self.lines.len();
        if current_size < size {
            let mut n: usize = current_size;
            while n < size
                invariant
                    current_size <= n <= size,
                    current_size == old(self).lines.len(),
                    self.lines.len() == n,
                    self.did_update == old(self).did_update,
                    self.lines.deep_view() == old(self).lines.deep_view() + Seq::new(
                        (n - current_size) as nat,
                        |k: int| LineView::filler(),
                    ),
                decreases size - n,
            {
                let ghost before = self.lines.deep_view();
                self.lines.push(Line::empty());
                n = n + 1;
                assert(self.lines.deep_view() =~= before.push(LineView::filler()));
                assert(self.lines.deep_view() =~= old(self).lines.deep_view() + Seq::new(
                    (n - current_size) as nat,
                    |k: int| LineView::filler(),
                ));
            }
        }
    }
}

impl Widget for List {
    type Components = Vec<Line>;

    open spec fn dirty(&self) -> bool {
        self@.dirty
    }

    open spec fn height(&self) -> nat {
        self@.lines.len()
    }

    open spec fn commands(&self, col: u16, row: u16) -> Seq<CommandView> {
        lines_commands(self@.lines, col, row as int)
    }

    open spec fn rendered(&self, after: &Self) -> bool {
        after@ == self@.clean()
    }

    open spec fn components(&self) -> Vec<Line> {
        self.lines
    }

    fn did_update(&self) -> (b: bool) {
        self.did_update
    }

    /// Renders the lines from top to bottom, one row each, whether dirty or
    /// not. Where it succeeds every flag of the list is down.
    fn render(&mut self, ui_ctx: &mut UiCtx) -> (r: RendResult) {
        let len = self.lines.len();
        if len > (u16::MAX - ui_ctx.row_start) as usize || len > (u16::MAX - ui_ctx.row_end) as usize {
            return Err(RenderError::RowOverflow);
        }
        let ghost views = self.lines.deep_view();
        let mut i: usize = 0;
        while i < len
            invariant
                i <= len,
                len == self.lines.len(),
                len == views.len(),
                views == old(self).lines.deep_view(),
                old(ui_ctx).has_rows(len as nat),
                self.did_update == old(self).did_update,
                forall|k: int| 0 <= k < i ==> (#[trigger] self.lines[k])@ == views[k].clean(),
                forall|k: int| i <= k < len ==> (#[trigger] self.lines[k])@ == views[k],
                old(ui_ctx).advanced(
                    ui_ctx,
                    lines_commands(views.take(i as int), old(ui_ctx).col_start, old(ui_ctx).row_start as int),
                    i as nat,
                ),
            decreases len - i,
        {
            let _ = self.lines[i].render(ui_ctx);
            ui_ctx.row_start = ui_ctx.row_start + 1;
            ui_ctx.row_end = ui_ctx.row_end + 1;
            proof {
                assert(views.take(i + 1).drop_last() =~= views.take(i as int));
                assert(views.take(i + 1).last() == views[i as int]);
                assert(ui_ctx.out.deep_view() =~= old(ui_ctx).out.deep_view() + lines_commands(
                    views.take(i + 1),
                    old(ui_ctx).col_start,
                    old(ui_ctx).row_start as int,
                ));
            }
            i = i + 1;
        }
        self.did_update = false;
        proof {
            assert(views.take(len as int) =~= views);
            assert(self@.lines =~= old(self)@.clean().lines);
        }
        Ok(())
    }

    fn update<F: FnMut(&mut Vec<Line>)>(&mut self, cb: F) {
        let mut cb = cb;
        cb(&mut self.lines);
        self.did_update = true;
    }
}

impl<'a> From<Lines<'a>> for List {
    /// A dirty list with one line of one plain span for each line of the
    /// slice, its line break included. The padding count is not used here:
    /// see [`List::expand`].
    fn from(lines: Lines<'a>) -> (list: Self)
        ensures
            list@ == ListView::of_texts(lines_of(lines.text())),
    {
        let texts = lines.to_strings();
        let mut list: Vec<Line> = Vec::new();
        let mut i: usize = 0;
        while i < texts.len()
            invariant
                i <= texts.len(),
                list.len() == i,
                forall|k: int| 0 <= k < i ==> (#[trigger] list[k])@ == LineView::of_text(texts[k]@),
            decreases texts.len() - i,
        {
            let line = Line::from_str(texts[i].as_str()).unwrap();
            list.push(line);
            i = i + 1;
        }
        let list = List::new(list);
        assert(list@.lines =~= ListView::of_texts(texts.deep_view()).lines);
        list
    }
}

impl<'a> FromSpecImpl<Lines<'a>> for List {
    open spec fn obeys_from_spec() -> bool {
        false
    }

    open spec fn from_spec(lines: Lines<'a>) -> List {
        arbitrary()
    }
}

} // verus!
