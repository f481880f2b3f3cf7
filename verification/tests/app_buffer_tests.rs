use editor_core::app::buffer::{Buffer, BufferBuilder};
use editor_core::modes::Cursor;
use editor_core::text::TextError;

#[test]
fn new_buffer_starts_with_the_cursor_at_the_top() {
    let b = Buffer::new(ropey::Rope::from_str("one\ntwo"), Some(3), Some(1));
    assert_eq!(*b.get_cursor(), Cursor { row: 0, col: 0 });
    assert_eq!(b.window_id(), Some(1));
    assert_eq!(b.get_lines_range(0, 5).unwrap().lines.to_string(), "one\ntwo");
}

#[test]
fn default_buffer_is_empty() {
    let b = Buffer::default();
    assert_eq!(*b.get_cursor(), Cursor { row: 0, col: 0 });
    assert_eq!(b.window_id(), None);
    let lines = b.get_lines_range(0, 3).unwrap();
    assert_eq!(lines.empty, 2);
    assert_eq!(lines.lines.to_string(), "");
}

#[test]
fn builder_makes_the_buffer_it_was_told() {
    let b = Buffer::build().with_text("scratch buffer".to_string()).with_window(0).create();
    assert_eq!(b.window_id(), Some(0));
    assert_eq!(*b.get_cursor(), Cursor { row: 0, col: 0 });
    let lines = b.get_lines_range(0, 2).unwrap();
    assert_eq!(lines.empty, 1);
    assert_eq!(lines.lines.to_string(), "scratch buffer");
}

#[test]
fn builder_without_a_window() {
    let b = BufferBuilder::default().with_text("x\ny".to_string()).create();
    assert_eq!(b.window_id(), None);
    assert_eq!(b.get_lines_range(0, 1).unwrap().lines.to_string(), "x\ny");
}

#[test]
fn builder_keeps_the_last_text_and_window() {
    let b = Buffer::build()
        .with_text("first".to_string())
        .with_window(1)
        .with_text("second".to_string())
        .with_window(2)
        .create();
    assert_eq!(b.window_id(), Some(2));
    assert_eq!(b.get_lines_range(0, 9).unwrap().lines.to_string(), "second");
}

#[test]
fn opening_and_removing_from_a_window() {
    let mut b = Buffer::default();
    b.open_in_window(4);
    assert_eq!(b.window_id(), Some(4));
    b.open_in_window(5);
    assert_eq!(b.window_id(), Some(5));
    b.remove_from_window();
    assert_eq!(b.window_id(), None);
    b.remove_from_window();
    assert_eq!(b.window_id(), None);
}

#[test]
fn set_cursor_moves_the_cursor_only() {
    let mut b = Buffer::new(ropey::Rope::from_str("a\nb\nc"), None, Some(1));
    b.set_cursor(Cursor { row: 2, col: 1 });
    assert_eq!(*b.get_cursor(), Cursor { row: 2, col: 1 });
    assert_eq!(b.window_id(), Some(1));
    assert_eq!(b.get_lines_range(0, 9).unwrap().lines.to_string(), "a\nb\nc");
}

#[test]
fn lines_range_of_a_buffer() {
    let b = Buffer::new(ropey::Rope::from_str("a\nb\nc\nd\ne"), None, None);
    let lines = b.get_lines_range(0, 10).unwrap();
    assert_eq!(lines.empty, 5);
    assert_eq!(lines.lines.to_string(), "a\nb\nc\nd\ne");
    let lines = b.get_lines_range(1, 2).unwrap();
    assert_eq!(lines.empty, 0);
    assert_eq!(lines.lines.to_string(), "b\nc\n");
}

#[test]
fn lines_range_errors() {
    let b = Buffer::new(ropey::Rope::from_str("a\nb\nc"), None, None);
    assert_eq!(b.get_lines_range(2, 1).err(), Some(TextError::InvalidRange));
    assert_eq!(b.get_lines_range(4, 5).err(), Some(TextError::OutOfRange));
    assert_eq!(b.get_lines_range(0, 3).err(), Some(TextError::OutOfRange));
}
