//! The application state, its event queue and the dispatch of queued events.

use vstd::prelude::*;
use vstd::std_specs::convert::FromSpecImpl;
use std::collections::HashMap;
use crate::experiments::{UserMachine, UserState};
use crate::modes::{update_modeline, BufferMode, BufferView, Ctx, Cursor, Modes};
use crate::renderer::widgets::{CommandView, LineView, ListView, RenderError};
use crate::renderer::{Renderer, UiView, WindowView, UI};
use crate::text::TextError;

use self::buffer::Buffer;

pub mod buffer;

verus! {

/// The payload of a text change: the new text, and the buffer it belongs to.
#[derive(Clone, Debug)]
pub struct TextChange {
    pub text: String,
    pub buffer_id: usize,
}

/// What happened in the editor.
#[derive(Clone, Debug)]
pub enum AppEvent {
    TextChange(TextChange),
    Move(i16, i16),
}

/// The kind of an event, by which its callbacks are found. The payload of the
/// event plays no part in it.
#[derive(Clone, Copy, Debug, PartialEq, Eq, Hash, Structural)]
pub struct AppEventKey(u8);

impl AppEventKey {
    /// The byte that stands for the kind: 0 for a text change, 1 for a move.
    pub closed spec fn code(self) -> u8 {
        self.0
    }

    /// The byte that stands for the kind.
    pub fn as_u8(&self) -> (code: u8)
        ensures
            code == self.code(),
    {
        self.0
    }

    /// The key of an event.
    pub closed spec fn of(event: AppEvent) -> AppEventKey {
        match event {
            AppEvent::TextChange(_) => AppEventKey(0),
            AppEvent::Move(_, _) => AppEventKey(1),
        }
    }
}

impl From<AppEvent> for AppEventKey {
    fn from(e: AppEvent) -> (key: Self)
        ensures
            key == AppEventKey::of(e),
    {
        match e {
            AppEvent::TextChange(_) => AppEventKey(0),
            AppEvent::Move(_, _) => AppEventKey(1),
        }
    }
}

impl FromSpecImpl<AppEvent> for AppEventKey {
    open spec fn obeys_from_spec() -> bool {
        true
    }

    open spec fn from_spec(e: AppEvent) -> AppEventKey {
        AppEventKey::of(e)
    }
}

impl AppEvent {
    /// The key under which the callbacks of this event are registered.
    pub fn key(&self) -> (key: AppEventKey)
        ensures
            key == AppEventKey::of(*self),
    {
        match self {
            AppEvent::TextChange(_) => AppEventKey(0),
            AppEvent::Move(_, _) => AppEventKey(1),
        }
    }
}

/// Events of one kind have one key, whatever they carry, and a text change
/// and a move have different keys.
pub proof fn lemma_key_ignores_payload(a: AppEvent, b: AppEvent)
    ensures
        a is TextChange && b is TextChange ==> AppEventKey::of(a) == AppEventKey::of(b),
        a is Move && b is Move ==> AppEventKey::of(a) == AppEventKey::of(b),
        a is TextChange && b is Move ==> AppEventKey::of(a) != AppEventKey::of(b),
        AppEventKey::of(a).code() == if a is TextChange {
            0u8
        } else {
            1u8
        },
{
}

/// A key as the editor tells keys apart.
#[derive(Clone, Copy, Debug, PartialEq, Eq, Structural)]
pub enum Key {
    Backspace,
    Enter,
    Left,
    Right,
    Up,
    Down,
    Delete,
    Char(char),
    /// Any key that the editor does not act on.
    Other,
}

/// A key that was pressed.
#[derive(Clone, Copy, Debug, PartialEq, Eq, Structural)]
pub struct KeyPress {
    pub code: Key,
    /// Whether Control, and no other modifier, was held.
    pub control: bool,
}

impl KeyPress {
    /// Whether this is the combination that ends the session: Control and
    /// `q`.
    pub open spec fn quits(self) -> bool {
        self.control && self.code == Key::Char('q')
    }
}

/// What the control loop does after a step.
#[derive(Clone, Copy, Debug, PartialEq, Eq, Structural)]
pub enum Flow {
    Continue,
    Quit,
}

/// Why the application did not do what was asked of it.
#[derive(Clone, Copy, Debug, PartialEq, Eq, Structural)]
pub enum AppError {
    /// The key has no action yet.
    NotImplemented,
    /// The screen could not be rendered.
    Render(RenderError),
}

/// What can be done when an event is dispatched.
#[derive(Clone, Copy, Debug, PartialEq, Eq, Structural)]
pub enum Callback {
    /// Counts move events in the modeline.
    UpdateModeline,
}

impl Callback {
    /// The modes after the callback ran on an event.
    pub open spec fn effect(self, modes: Modes, event: AppEvent) -> Modes {
        match self {
            Callback::UpdateModeline => Modes { modeline: modes.modeline.after(event), ..modes },
        }
    }

    /// Runs the callback on an event.
    pub fn call(&self, ctx: &mut Ctx, e: &AppEvent)
        ensures
            *final(ctx).modes == self.effect(*old(ctx).modes, *e),
            *final(final(ctx).modes) == *final(old(ctx).modes),
    {
        match self {
            Callback::UpdateModeline => update_modeline(ctx, e),
        }
    }
}

/// The callbacks registered for the kind of `event`, in the order in which
/// they run.
pub open spec fn callbacks_for(cbs: Map<u8, Vec<Callback>>, event: AppEvent) -> Seq<Callback> {
    if cbs.contains_key(AppEventKey::of(event).code()) {
        cbs[AppEventKey::of(event).code()]@
    } else {
        seq![]
    }
}

/// The modes after `callbacks` ran on `event`, first to last.
pub open spec fn run_callbacks(modes: Modes, callbacks: Seq<Callback>, event: AppEvent) -> Modes
    decreases callbacks.len(),
{
    if callbacks.len() == 0 {
        modes
    } else {
        callbacks.last().effect(run_callbacks(modes, callbacks.drop_last(), event), event)
    }
}

/// The modes after each of `events`, first to last, was handed to the
/// callbacks registered for its kind.
pub open spec fn dispatch(modes: Modes, cbs: Map<u8, Vec<Callback>>, events: Seq<AppEvent>) -> Modes
    decreases events.len(),
{
    if events.len() == 0 {
        modes
    } else {
        run_callbacks(
            dispatch(modes, cbs, events.drop_last()),
            callbacks_for(cbs, events.last()),
            events.last(),
        )
    }
}

/// Dispatching events changes nothing but the modeline.
pub proof fn lemma_dispatch_frame(modes: Modes, cbs: Map<u8, Vec<Callback>>, events: Seq<AppEvent>)
    ensures
        dispatch(modes, cbs, events).ui == modes.ui,
        dispatch(modes, cbs, events).buff == modes.buff,
        dispatch(modes, cbs, events).core == modes.core,
    decreases events.len(),
{
    if events.len() > 0 {
        lemma_dispatch_frame(modes, cbs, events.drop_last());
        lemma_run_callbacks_frame(
            dispatch(modes, cbs, events.drop_last()),
            callbacks_for(cbs, events.last()),
            events.last(),
        );
    }
}

/// Running callbacks on an event changes nothing but the modeline.
pub proof fn lemma_run_callbacks_frame(modes: Modes, callbacks: Seq<Callback>, event: AppEvent)
    ensures
        run_callbacks(modes, callbacks, event).ui == modes.ui,
        run_callbacks(modes, callbacks, event).buff == modes.buff,
        run_callbacks(modes, callbacks, event).core == modes.core,
    decreases callbacks.len(),
{
    if callbacks.len() > 0 {
        lemma_run_callbacks_frame(modes, callbacks.drop_last(), event);
    }
}

/// What dispatching makes of the modeline depends on the modeline alone.
pub proof fn lemma_dispatch_modeline(
    a: Modes,
    b: Modes,
    cbs: Map<u8, Vec<Callback>>,
    events: Seq<AppEvent>,
)
    requires
        a.modeline == b.modeline,
    ensures
        dispatch(a, cbs, events).modeline == dispatch(b, cbs, events).modeline,
    decreases events.len(),
{
    if events.len() > 0 {
        lemma_dispatch_modeline(a, b, cbs, events.drop_last());
        lemma_run_callbacks_modeline(
            dispatch(a, cbs, events.drop_last()),
            dispatch(b, cbs, events.drop_last()),
            callbacks_for(cbs, events.last()),
            events.last(),
        );
    }
}

/// What callbacks make of the modeline depends on the modeline alone.
pub proof fn lemma_run_callbacks_modeline(
    a: Modes,
    b: Modes,
    callbacks: Seq<Callback>,
    event: AppEvent,
)
    requires
        a.modeline == b.modeline,
    ensures
        run_callbacks(a, callbacks, event).modeline == run_callbacks(b, callbacks, event).modeline,
    decreases callbacks.len(),
{
    if callbacks.len() > 0 {
        lemma_run_callbacks_modeline(a, b, callbacks.drop_last(), event);
    }
}

/// Without callbacks, dispatching events changes nothing.
pub proof fn lemma_dispatch_without_callbacks(modes: Modes, events: Seq<AppEvent>)
    ensures
        dispatch(modes, Map::<u8, Vec<Callback>>::empty(), events) == modes,
    decreases events.len(),
{
    if events.len() > 0 {
        lemma_dispatch_without_callbacks(modes, events.drop_last());
    }
}

/// The scratch buffer is one line.
pub proof fn lemma_scratch_buffer_is_one_line()
    ensures
        crate::text::line_count("scratch buffer"@) == 1,
        crate::text::lines_of("scratch buffer"@) == seq!["scratch buffer"@],
{
    reveal_strlit("scratch buffer");
    assert forall|i: int| 0 <= i < "scratch buffer"@.len() implies !crate::text::is_line_break(
        #[trigger] "scratch buffer"@[i],
    ) by {}
    crate::text::lemma_single_line("scratch buffer"@);
}

/// On a terminal of any height but one row, the first window shows the
/// scratch buffer on its first row and fillers on the rows below. On a
/// terminal of no rows it still holds that one line.
pub proof fn lemma_first_window(columns: u16, rows: u16)
    requires
        rows != 1,
    ensures
        App::first_window(columns, rows).contents == ListView::of_texts(
            seq!["scratch buffer"@],
        ).expand(rows as nat),
        App::first_window(columns, rows).contents.lines.len() == if rows == 0 {
            1
        } else {
            rows as int
        },
        App::first_window(columns, rows).contents.lines[0] == LineView::of_text(
            "scratch buffer"@,
        ),
        forall|k: int|
            1 <= k < rows ==> App::first_window(columns, rows).contents.lines[k]
                == LineView::filler(),
{
    let text = "scratch buffer"@;
    lemma_scratch_buffer_is_one_line();
    crate::text::lemma_line_starts(text, 0, 1);
    if rows >= 2 {
        crate::text::lemma_padded_range_is_whole_text(text, rows as int);
    } else {
        assert(text.subrange(0, text.len() as int) =~= text);
    }
    assert(crate::text::range_text(text, 0, rows as int) == text);
    assert(ListView::of_texts(crate::text::lines_of(text)).lines =~= ListView::of_texts(
        seq![text],
    ).lines);
}

/// `char::to_string` gives the string that holds that one character.
#[verifier::external_body]
fn char_to_string(c: char) -> (s: String)
    ensures
        s@ == seq![c],
{
    c.to_string()
}

/// The editor: its screen, its modes, the queue of events that wait for the
/// next idle tick, and the callbacks for each kind of event.
#[derive(Debug)]
pub struct App {
    pub renderer: Renderer,
    pub ui: UI,
    pub user_state: UserState,
    pub buffers: Vec<Buffer>,
    pub modes: Modes,
    pub queue: Vec<AppEvent>,
    /// The callbacks of each kind of event, under the byte of its key.
    pub cbs: HashMap<u8, Vec<Callback>>,
}

impl App {
    /// Whether the active buffer exists.
    pub open spec fn wf(&self) -> bool {
        self.modes.buff.wf()
    }

    /// Whether the key has no action yet.
    pub open spec fn unimplemented(key: Key) -> bool {
        key is Delete || key is Left || key is Right || key is Up || key is Down
    }

    /// Whether the key changes the active buffer.
    pub open spec fn edits(key: Key) -> bool {
        key is Char || key is Enter || key is Backspace
    }

    /// What a buffer holds after a key: a character is inserted, Enter
    /// starts a line, Backspace steps back, and no other key changes it.
    pub open spec fn edit(buffer: BufferView, key: Key) -> BufferView {
        match key {
            Key::Char(c) => buffer.insert(seq![c]),
            Key::Enter => buffer.newline(),
            Key::Backspace => buffer.backspace(),
            _ => buffer,
        }
    }

    /// Whether the place at which the cursor shows after the key can be held
    /// in machine words.
    pub open spec fn can_handle(&self, key: Key) -> bool {
        Self::edits(key) ==> Self::edit(self.modes.buff.active_view(), key).shows()
    }

    /// Tells whether [`App::handle`] can be called with the key.
    pub fn can_handle_key(&self, key: Key) -> (b: bool)
        requires
            self.wf(),
        ensures
            b == self.can_handle(key),
    {
        let buffer = &self.modes.buff.buffers[self.modes.buff.active];
        match key {
            Key::Char(k) => buffer.shows_after_insert(char_to_string(k).as_str()),
            Key::Enter => buffer.shows_after_newline(),
            Key::Backspace => buffer.shows_after_backspace(),
            _ => true,
        }
    }

    /// Whether `after` holds the modes of this application after the key.
    pub open spec fn keyed(&self, after: &App, key: Key) -> bool {
        &&& after.modes.modeline == self.modes.modeline
        &&& after.modes.core == self.modes.core
        &&& if Self::edits(key) {
            &&& self.modes.buff.edited(
                &after.modes.buff,
                Self::edit(self.modes.buff.active_view(), key),
            )
            &&& BufferMode::shown(
                &self.modes.ui,
                &after.modes.ui,
                Self::edit(self.modes.buff.active_view(), key),
            )
        } else {
            after.modes.buff == self.modes.buff && after.modes.ui == self.modes.ui
        }
        &&& after.queue@ == if key is Char {
            self.queue@.push(AppEvent::Move(4, 1))
        } else {
            self.queue@
        }
        &&& after.buffers == self.buffers
        &&& after.cbs == self.cbs
        &&& after.user_state == self.user_state
        &&& after.ui@.widgets == self.ui@.widgets
        &&& after.ui@.active == self.ui@.active
        &&& after.renderer.columns() == self.renderer.columns()
    }

    /// The first window of a terminal of the given size, bound to the
    /// scratch buffer.
    pub open spec fn first_window(columns: u16, rows: u16) -> WindowView {
        (WindowView {
            buffer: 0,
            contents: ListView { lines: seq![], dirty: false },
            dirty: false,
            rows: rows as usize,
            cols: columns as usize,
        }).bound(0, "scratch buffer"@, 0)
    }

    /// The application at its start on a terminal of the given size: one
    /// window, bound to a scratch buffer; the prompt buffer in the modes; no
    /// event queued, no callback registered, and the commands that open the
    /// session pending. It fails on a terminal of one row, where the window
    /// cannot take its range from the scratch buffer.
    pub fn new(columns: u16, rows: u16) -> (r: Result<Self, TextError>)
        ensures
            match r {
                Ok(app) => {
                    &&& rows != 1
                    &&& app.wf()
                    &&& app.renderer.pending() == Renderer::setup()
                    &&& app.renderer.columns() == columns
                    &&& app.ui@ == (UiView {
                        widgets: ListView { lines: seq![], dirty: false },
                        windows: seq![Self::first_window(columns, rows)],
                        active: 0,
                    })
                    &&& app.user_state == UserState::Idle
                    &&& app.buffers.len() == 1
                    &&& app.buffers[0].text() == "scratch buffer"@
                    &&& app.buffers[0].window() == Some(0usize)
                    &&& app.buffers[0].doc() is None
                    &&& app.buffers[0].cursor() == (Cursor { row: 0, col: 0 })
                    &&& app.modes.fresh(columns, rows)
                    &&& app.queue@ == Seq::<AppEvent>::empty()
                    &&& app.cbs@ == Map::<u8, Vec<Callback>>::empty()
                },
                Err(e) => rows == 1 && e == TextError::OutOfRange,
            },
    {
        proof {
            lemma_scratch_buffer_is_one_line();
        }
        let mut ui = UI::new(columns, rows);
        let buff = Buffer::build().with_text("scratch buffer".to_string()).with_window(0).create();
        match ui.get_active_window().set_buffer(0, &buff) {
            Ok(()) => {},
            Err(e) => {
                return Err(e);
            },
        }
        assert(ui@.windows =~= seq![Self::first_window(columns, rows)]);
        let mut buffers: Vec<Buffer> = Vec::new();
        buffers.push(buff);
        Ok(
            App {
                renderer: Renderer::new(columns),
                ui,
                user_state: UserMachine::INITIAL_STATE,
                buffers,
                modes: Modes::new(columns, rows),
                queue: Vec::new(),
                cbs: HashMap::new(),
            },
        )
    }

    /// Puts `callbacks` in place of what is registered for the events of
    /// kind `key`.
    pub fn register(&mut self, key: AppEventKey, callbacks: Vec<Callback>)
        ensures
            final(self).cbs@ == old(self).cbs@.insert(key.code(), callbacks),
            final(self).renderer == old(self).renderer,
            final(self).ui == old(self).ui,
            final(self).user_state == old(self).user_state,
            final(self).buffers == old(self).buffers,
            final(self).modes == old(self).modes,
            final(self).queue == old(self).queue,
    {
        self.cbs.insert(key.0, callbacks);
    }

    /// Acts on a key and renders the screen. A character is inserted in the
    /// active buffer and queues a move event; Enter starts a line; Backspace
    /// steps back. Delete and the arrows have no action yet: they are
    /// refused, and nothing changes. After any other key the active window is
    /// rendered and its commands, then a flush, are added to the renderer.
    pub fn handle(&mut self, key: Key) -> (r: Result<(), AppError>)
        requires
            old(self).wf(),
            old(self).can_handle(key),
        ensures
            final(self).wf(),
            Self::unimplemented(key) ==> r == Err::<(), AppError>(AppError::NotImplemented)
                && *final(self) == *old(self),
            !Self::unimplemented(key) ==> old(self).keyed(final(self), key) && match r {
                Ok(()) => {
                    &&& old(self).ui@.screen().contents.lines.len() < u16::MAX
                    &&& final(self).renderer.pending() == old(self).renderer.pending() + old(
                        self,
                    ).ui@.screen_commands() + seq![CommandView::Flush]
                    &&& final(self).ui@ == old(self).ui@.painted()
                },
                Err(e) => {
                    &&& old(self).ui@.screen().contents.lines.len() >= u16::MAX
                    &&& e == AppError::Render(RenderError::RowOverflow)
                    &&& final(self).renderer.pending() == old(self).renderer.pending()
                    &&& final(self).ui@ == old(self).ui@
                },
            },
    {
        match key {
            Key::Backspace => {
                self.modes.buff.backspace(&mut self.modes.ui);
            },
            Key::Enter => {
                self.modes.buff.insert_newline(&mut self.modes.ui);
            },
            Key::Char(k) => {
                let text = char_to_string(k);
                self.modes.buff.insert_self(&mut self.modes.ui, text.as_str(), &mut self.queue);
            },
            Key::Delete | Key::Left | Key::Right | Key::Up | Key::Down => {
                return Err(AppError::NotImplemented);
            },
            Key::Other => {},
        }
        let screen = self.ui.screen();
        let r = self.renderer.render(screen);
        proof {
            assert(r is Ok ==> self.ui@.windows =~= old(self).ui@.painted().windows);
            assert(r is Err ==> self.ui@.windows =~= old(self).ui@.windows);
        }
        match r {
            Ok(()) => Ok(()),
            Err(e) => Err(AppError::Render(e)),
        }
    }

    /// Hands one event to one callback.
    fn dispatch_one(modes: &mut Modes, callback: &Callback, event: &AppEvent)
        ensures
            *final(modes) == callback.effect(*old(modes), *event),
    {
        let mut ctx = Ctx { modes };
        callback.call(&mut ctx, event);
    }

    /// The idle tick: takes every event off the queue and hands each, in the
    /// order of arrival, to the callbacks registered for its kind, in the
    /// order of registration. It always succeeds.
    pub fn idle(&mut self) -> (r: Result<(), AppError>)
        ensures
            r is Ok,
            final(self).queue@ == Seq::<AppEvent>::empty(),
            final(self).modes == dispatch(old(self).modes, old(self).cbs@, old(self).queue@),
            final(self).modes.ui == old(self).modes.ui,
            final(self).modes.buff == old(self).modes.buff,
            final(self).cbs == old(self).cbs,
            final(self).renderer == old(self).renderer,
            final(self).ui == old(self).ui,
            final(self).user_state == old(self).user_state,
            final(self).buffers == old(self).buffers,
    {
        let mut events: Vec<AppEvent> = Vec::new();
        events.append(&mut self.queue);
        assert(events@ =~= old(self).queue@);
        let mut i: usize = 0;
        while i < events.len()
            invariant
                i <= events.len(),
                events@ == old(self).queue@,
                self.queue@ == Seq::<AppEvent>::empty(),
                self.modes == dispatch(old(self).modes, old(self).cbs@, events@.take(i as int)),
                self.cbs == old(self).cbs,
                self.renderer == old(self).renderer,
                self.ui == old(self).ui,
                self.user_state == old(self).user_state,
                self.buffers == old(self).buffers,
            decreases events.len() - i,
        {
            let e = &events[i];
            let ghost before = self.modes;
            let code = e.key().as_u8();
            if let Some(cbs) = self.cbs.get(&code) {
                let mut j: usize = 0;
                while j < cbs.len()
                    invariant
                        j <= cbs.len(),
                        self.modes == run_callbacks(before, cbs@.take(j as int), *e),
                        self.queue@ == Seq::<AppEvent>::empty(),
                        self.cbs == old(self).cbs,
                        self.renderer == old(self).renderer,
                        self.ui == old(self).ui,
                        self.user_state == old(self).user_state,
                        self.buffers == old(self).buffers,
                    decreases cbs.len() - j,
                {
                    Self::dispatch_one(&mut self.modes, &cbs[j], e);
                    proof {
                        assert(cbs@.take(j + 1).drop_last() =~= cbs@.take(j as int));
                    }
                    j = j + 1;
                }
                assert(cbs@.take(j as int) =~= cbs@);
            }
            proof {
                assert(events@.take(i + 1).drop_last() =~= events@.take(i as int));
                assert(events@.take(i + 1).last() == *e);
            }
            i = i + 1;
        }
        proof {
            assert(events@.take(i as int) =~= events@);
            lemma_dispatch_frame(old(self).modes, old(self).cbs@, old(self).queue@);
        }
        Ok(())
    }

    /// Whether `after` is this application after the key was handled, the
    /// screen was rendered and the idle tick was made.
    pub open spec fn stepped(&self, after: &App, key: Key) -> bool {
        &&& after.modes.modeline == dispatch(
            self.modes,
            self.cbs@,
            if key is Char {
                self.queue@.push(AppEvent::Move(4, 1))
            } else {
                self.queue@
            },
        ).modeline
        &&& after.modes.core == self.modes.core
        &&& if Self::edits(key) {
            &&& self.modes.buff.edited(
                &after.modes.buff,
                Self::edit(self.modes.buff.active_view(), key),
            )
            &&& BufferMode::shown(
                &self.modes.ui,
                &after.modes.ui,
                Self::edit(self.modes.buff.active_view(), key),
            )
        } else {
            after.modes.buff == self.modes.buff && after.modes.ui == self.modes.ui
        }
        &&& after.queue@ == Seq::<AppEvent>::empty()
        &&& after.buffers == self.buffers
        &&& after.cbs == self.cbs
        &&& after.user_state == self.user_state
        &&& after.renderer.columns() == self.renderer.columns()
        &&& after.renderer.pending() == self.renderer.pending() + self.ui@.screen_commands()
            + seq![CommandView::Flush]
        &&& after.ui@ == self.ui@.painted()
    }

    /// One turn of the control loop. The quit combination ends the session
    /// at once: the key is not handled and queued events stay queued.
    /// Otherwise the key, if there is one, is handled as by [`App::handle`],
    /// and the idle tick follows as by [`App::idle`]. Where handling the key
    /// fails there is no idle tick.
    pub fn step(&mut self, input: Option<KeyPress>) -> (r: Result<Flow, AppError>)
        requires
            old(self).wf(),
            input matches Some(press) ==> press.quits() || old(self).can_handle(press.code),
        ensures
            final(self).wf(),
            match input {
                None => {
                    &&& r == Ok::<Flow, AppError>(Flow::Continue)
                    &&& final(self).queue@ == Seq::<AppEvent>::empty()
                    &&& final(self).modes == dispatch(
                        old(self).modes,
                        old(self).cbs@,
                        old(self).queue@,
                    )
                    &&& final(self).cbs == old(self).cbs
                    &&& final(self).renderer == old(self).renderer
                    &&& final(self).ui == old(self).ui
                    &&& final(self).user_state == old(self).user_state
                    &&& final(self).buffers == old(self).buffers
                },
                Some(press) => if press.quits() {
                    r == Ok::<Flow, AppError>(Flow::Quit) && *final(self) == *old(self)
                } else if Self::unimplemented(press.code) {
                    r == Err::<Flow, AppError>(AppError::NotImplemented) && *final(self) == *old(
                        self,
                    )
                } else if old(self).ui@.screen().contents.lines.len() < u16::MAX {
                    r == Ok::<Flow, AppError>(Flow::Continue) && old(self).stepped(
                        final(self),
                        press.code,
                    )
                } else {
                    &&& r == Err::<Flow, AppError>(AppError::Render(RenderError::RowOverflow))
                    &&& old(self).keyed(final(self), press.code)
                    &&& final(self).renderer.pending() == old(self).renderer.pending()
                    &&& final(self).ui@ == old(self).ui@
                },
            },
    {
        match input {
            Some(press) => {
                if press.control && press.code == Key::Char('q') {
                    return Ok(Flow::Quit);
                }
                match self.handle(press.code) {
                    Ok(()) => {},
                    Err(e) => {
                        return Err(e);
                    },
                }
            },
            None => {},
        }
        let ghost handled = *self;
        let r = match self.idle() {
            Ok(()) => Ok(Flow::Continue),
            Err(e) => Err(e),
        };
        proof {
            lemma_dispatch_modeline(handled.modes, old(self).modes, handled.cbs@, handled.queue@);
        }
        r
    }
}

} // verus!
