use std::str::FromStr;

use editor_core::renderer::widgets::{
    Attribute, Color, Command, Line, List, RenderError, Span, UiCtx, Widget,
};
use editor_core::text::TextStore;

fn ctx(col: u16, row: u16) -> UiCtx {
    UiCtx { out: Vec::new(), row_start: row, row_end: row + 1, col_start: col, col_end: 80 }
}

fn print(text: &str) -> Command {
    Command::Print(text.to_string())
}

fn plain(text: &str) -> Line {
    Line::from_str(text).unwrap()
}

#[test]
fn span_from_str_is_plain_text() {
    assert_eq!(Span::from_str("abc").unwrap(), Span::new("abc".to_string()));
    assert_eq!(Span::default(), Span::new(String::new()));
}

#[test]
fn plain_span_renders_its_text_only() {
    let mut line = Line::new(vec![Span::new("abc".to_string())]);
    let mut c = ctx(0, 0);
    assert_eq!(line.render(&mut c), Ok(()));
    assert_eq!(c.out, vec![Command::MoveTo(0, 0), print("abc")]);
}

#[test]
fn coloured_span_is_bracketed_by_colour_and_reset() {
    let mut line = Line::new(vec![Span::new("abc".to_string()).color(Color::Red)]);
    let mut c = ctx(2, 5);
    assert_eq!(line.render(&mut c), Ok(()));
    assert_eq!(
        c.out,
        vec![
            Command::MoveTo(2, 5),
            Command::SetForegroundColor(Color::Red),
            print("abc"),
            Command::SetForegroundColor(Color::Black),
        ]
    );
}

#[test]
fn styled_span_is_bracketed_by_attribute_and_reset() {
    let mut line =
        Line::new(vec![Span::new("abc".to_string()).style(Attribute::Bold).color(Color::Blue)]);
    let mut c = ctx(0, 0);
    assert_eq!(line.render(&mut c), Ok(()));
    assert_eq!(
        c.out,
        vec![
            Command::MoveTo(0, 0),
            Command::SetForegroundColor(Color::Blue),
            Command::SetAttribute(Attribute::Bold),
            print("abc"),
            Command::SetForegroundColor(Color::Black),
            Command::SetAttribute(Attribute::Reset),
        ]
    );
}

#[test]
fn later_builder_call_replaces_the_earlier() {
    let span = Span::new("x".to_string()).color(Color::Red).color(Color::Green);
    assert_eq!(span, Span::new("x".to_string()).color(Color::Green));
    let span = Span::new("x".to_string()).style(Attribute::Bold).style(Attribute::Italic);
    assert_eq!(span, Span::new("x".to_string()).style(Attribute::Italic));
}

#[test]
fn spans_render_from_left_to_right() {
    let mut line = Line::new(vec![
        Span::new("a".to_string()),
        Span::new("b".to_string()).style(Attribute::Underlined),
        Span::new("c".to_string()),
    ]);
    let mut c = ctx(1, 1);
    assert_eq!(line.render(&mut c), Ok(()));
    assert_eq!(
        c.out,
        vec![
            Command::MoveTo(1, 1),
            print("a"),
            Command::SetAttribute(Attribute::Underlined),
            print("b"),
            Command::SetAttribute(Attribute::Reset),
            print("c"),
        ]
    );
}

#[test]
fn new_line_is_dirty_and_default_line_is_clean() {
    let line = Line::new(vec![Span::new("a".to_string())]);
    assert!(line.did_update());
    assert_eq!(line.spans, vec![Span::new("a".to_string())]);
    let line = Line::default();
    assert!(!line.did_update());
    assert!(line.spans.is_empty());
}

#[test]
fn line_from_str_has_one_plain_span() {
    let line = plain("hello");
    assert!(line.did_update());
    assert_eq!(line.spans, vec![Span::new("hello".to_string())]);
}

#[test]
fn filler_line_is_a_cyan_tilde() {
    let line = Line::empty();
    assert!(line.did_update());
    assert_eq!(line.spans, vec![Span::new("~".to_string()).color(Color::Cyan)]);
}

#[test]
fn render_leaves_the_line_clean_and_keeps_its_spans() {
    let mut line = plain("hello");
    let mut c = ctx(0, 0);
    assert_eq!(line.render(&mut c), Ok(()));
    assert!(!line.did_update());
    assert_eq!(line.spans, vec![Span::new("hello".to_string())]);
    assert_eq!(c.row_start, 0);
    assert_eq!(c.row_end, 1);
    assert_eq!(c.col_start, 0);
    assert_eq!(c.col_end, 80);
}

#[test]
fn render_of_a_clean_line_writes_nothing() {
    let mut line = plain("hello");
    let mut c = ctx(0, 0);
    line.render(&mut c).unwrap();
    let written = c.out.len();
    assert_eq!(line.render(&mut c), Ok(()));
    assert_eq!(c.out.len(), written);
    let mut clean = Line::default();
    let mut c = ctx(0, 0);
    clean.render(&mut c).unwrap();
    assert!(c.out.is_empty());
}

#[test]
fn render_of_a_dirty_line_without_spans_only_moves() {
    let mut line = Line::new(vec![]);
    let mut c = ctx(3, 9);
    assert_eq!(line.render(&mut c), Ok(()));
    assert_eq!(c.out, vec![Command::MoveTo(3, 9)]);
    assert!(!line.did_update());
}

#[test]
fn render_adds_to_what_was_written() {
    let mut line = plain("x");
    let mut c = ctx(0, 0);
    c.out.push(Command::Hide);
    line.render(&mut c).unwrap();
    assert_eq!(c.out, vec![Command::Hide, Command::MoveTo(0, 0), print("x")]);
}

#[test]
fn line_render_succeeds_on_the_last_row() {
    let mut line = plain("x");
    let mut c = UiCtx {
        out: Vec::new(),
        row_start: u16::MAX,
        row_end: u16::MAX,
        col_start: 0,
        col_end: 0,
    };
    assert_eq!(line.render(&mut c), Ok(()));
    assert_eq!(c.out, vec![Command::MoveTo(0, u16::MAX), print("x")]);
}

#[test]
fn update_that_changes_nothing_still_marks_dirty() {
    let mut line = plain("same");
    line.render(&mut ctx(0, 0)).unwrap();
    line.update(|_| {});
    assert!(line.did_update());
    assert_eq!(line.spans, vec![Span::new("same".to_string())]);
}

#[test]
fn update_changes_the_spans_and_marks_dirty() {
    let mut line = plain("old");
    line.render(&mut ctx(0, 0)).unwrap();
    assert!(!line.did_update());
    line.update(|spans| {
        spans.clear();
        spans.push(Span::new("new".to_string()));
    });
    assert!(line.did_update());
    let mut c = ctx(0, 4);
    line.render(&mut c).unwrap();
    assert_eq!(c.out, vec![Command::MoveTo(0, 4), print("new")]);
}

#[test]
fn emit_adds_one_command() {
    let mut c = ctx(1, 2);
    c.emit(Command::Flush);
    c.emit(Command::Show);
    assert_eq!(c.out, vec![Command::Flush, Command::Show]);
    assert_eq!((c.row_start, c.row_end, c.col_start, c.col_end), (2, 3, 1, 80));
}

#[test]
fn new_list_is_dirty_and_default_list_is_clean() {
    let list = List::new(vec![plain("a")]);
    assert!(list.did_update());
    assert_eq!(list.lines.len(), 1);
    let list = List::default();
    assert!(!list.did_update());
    assert!(list.lines.is_empty());
}

#[test]
fn expand_adds_filler_lines_at_the_end() {
    let mut list = List::new(vec![plain("a"), plain("b")]);
    list.expand(5);
    assert_eq!(list.lines.len(), 5);
    assert_eq!(list.lines[0], plain("a"));
    assert_eq!(list.lines[1], plain("b"));
    for k in 2..5 {
        assert_eq!(list.lines[k], Line::empty());
    }
}

#[test]
fn expand_is_idempotent() {
    let mut list = List::new(vec![plain("a")]);
    list.expand(4);
    let before = List::new(vec![plain("a"), Line::empty(), Line::empty(), Line::empty()]);
    assert_eq!(list, before);
    list.expand(4);
    assert_eq!(list, before);
    list.expand(3);
    assert_eq!(list, before);
    list.expand(0);
    assert_eq!(list, before);
}

#[test]
fn expand_never_shrinks() {
    let mut list = List::new(vec![plain("a"), plain("b"), plain("c")]);
    list.expand(2);
    assert_eq!(list.lines.len(), 3);
    list.expand(3);
    assert_eq!(list.lines.len(), 3);
    assert_eq!(list.lines[2], plain("c"));
}

#[test]
fn expand_of_an_empty_list() {
    let mut list = List::default();
    list.expand(2);
    assert_eq!(list.lines, vec![Line::empty(), Line::empty()]);
    // Growing does not mark the list itself.
    assert!(!list.did_update());
}

#[test]
fn list_renders_each_line_on_its_own_row() {
    let mut list = List::new(vec![plain("a"), plain("b"), plain("c")]);
    let mut c = ctx(2, 10);
    assert_eq!(list.render(&mut c), Ok(()));
    assert_eq!(
        c.out,
        vec![
            Command::MoveTo(2, 10),
            print("a"),
            Command::MoveTo(2, 11),
            print("b"),
            Command::MoveTo(2, 12),
            print("c"),
        ]
    );
    assert_eq!(c.row_start, 13);
    assert_eq!(c.row_end, 14);
    assert_eq!(c.col_start, 2);
}

#[test]
fn list_render_leaves_every_node_clean() {
    let mut list = List::new(vec![plain("a"), plain("b")]);
    list.render(&mut ctx(0, 0)).unwrap();
    assert!(!list.did_update());
    assert!(list.lines.iter().all(|l| !l.did_update()));
    let mut c = ctx(0, 0);
    list.render(&mut c).unwrap();
    assert!(c.out.is_empty());
}

#[test]
fn list_render_moves_on_a_row_for_clean_lines_too() {
    let mut list = List::new(vec![plain("a"), plain("b"), plain("c")]);
    list.render(&mut ctx(0, 0)).unwrap();
    list.lines[2].update(|spans| spans[0] = Span::new("C".to_string()));
    let mut c = ctx(0, 0);
    assert_eq!(list.render(&mut c), Ok(()));
    assert_eq!(c.out, vec![Command::MoveTo(0, 2), print("C")]);
    assert_eq!(c.row_start, 3);
    assert_eq!(c.row_end, 4);
}

#[test]
fn list_render_of_dirty_lines_in_a_clean_list() {
    // A line is rendered by its own flag, whatever the flag of the list.
    let mut list = List::default();
    list.lines.push(plain("a"));
    assert!(!list.did_update());
    let mut c = ctx(0, 0);
    list.render(&mut c).unwrap();
    assert_eq!(c.out, vec![Command::MoveTo(0, 0), print("a")]);
}

#[test]
fn list_render_fails_where_rows_run_out() {
    let mut list = List::new(vec![plain("a"), plain("b")]);
    let mut c = UiCtx {
        out: vec![Command::Hide],
        row_start: u16::MAX - 2,
        row_end: u16::MAX - 1,
        col_start: 0,
        col_end: 10,
    };
    assert_eq!(list.render(&mut c), Err(RenderError::RowOverflow));
    assert_eq!(c.out, vec![Command::Hide]);
    assert_eq!(c.row_start, u16::MAX - 2);
    assert_eq!(c.row_end, u16::MAX - 1);
    assert!(list.did_update());
    assert!(list.lines.iter().all(|l| l.did_update()));
}

#[test]
fn list_render_succeeds_where_rows_just_suffice() {
    let mut list = List::new(vec![plain("a"), plain("b")]);
    let mut c = UiCtx {
        out: Vec::new(),
        row_start: u16::MAX - 3,
        row_end: u16::MAX - 2,
        col_start: 0,
        col_end: 10,
    };
    assert_eq!(list.render(&mut c), Ok(()));
    assert_eq!(c.row_start, u16::MAX - 1);
    assert_eq!(c.row_end, u16::MAX);
}

#[test]
fn list_render_of_no_lines_does_nothing() {
    let mut list = List::new(vec![]);
    let mut c = UiCtx {
        out: Vec::new(),
        row_start: u16::MAX,
        row_end: u16::MAX,
        col_start: 0,
        col_end: 10,
    };
    assert_eq!(list.render(&mut c), Ok(()));
    assert!(c.out.is_empty());
    assert_eq!(c.row_start, u16::MAX);
    assert!(!list.did_update());
}

#[test]
fn list_update_changes_the_lines_and_marks_dirty() {
    let mut list = List::new(vec![plain("a")]);
    list.render(&mut ctx(0, 0)).unwrap();
    list.update(|lines| {
        lines[0] = plain("x");
        lines.push(plain("y"));
    });
    assert!(list.did_update());
    assert_eq!(list.lines, vec![plain("x"), plain("y")]);
}

#[test]
fn list_from_lines_has_one_line_for_each_line_of_text() {
    let store = TextStore::from_str("one\ntwo\nthree");
    let list = List::from(store.slice_lines(0, 5).unwrap());
    assert!(list.did_update());
    assert_eq!(list.lines, vec![plain("one\n"), plain("two\n"), plain("three")]);
}

#[test]
fn list_from_lines_does_not_pad() {
    let store = TextStore::from_str("one");
    let lines = store.slice_lines(0, 9).unwrap();
    assert_eq!(lines.empty, 8);
    let list = List::from(lines);
    assert_eq!(list.lines, vec![plain("one")]);
}

#[test]
fn list_from_lines_of_an_empty_store() {
    let store = TextStore::from_str("");
    let list = List::from(store.slice_lines(0, 3).unwrap());
    assert_eq!(list.lines, vec![plain("")]);
}
