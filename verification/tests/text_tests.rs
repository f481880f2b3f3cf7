use editor_core::text::{Lines, TextError, TextStore};

// A plain model of lines, written without the rope: a line ends behind each
// line break, and CR LF is one break.

fn is_line_break(c: char) -> bool {
    matches!(c, '\n' | '\u{000B}' | '\u{000C}' | '\r' | '\u{0085}' | '\u{2028}' | '\u{2029}')
}

fn ends_line(text: &[char], i: usize) -> bool {
    is_line_break(text[i]) && !(text[i] == '\r' && i + 1 < text.len() && text[i + 1] == '\n')
}

fn line_starts(text: &[char]) -> Vec<usize> {
    let mut starts = vec![0];
    for i in 0..text.len() {
        if ends_line(text, i) {
            starts.push(i + 1);
        }
    }
    starts
}

fn model_lines(text: &[char]) -> Vec<String> {
    let starts = line_starts(text);
    let mut lines = Vec::new();
    for k in 0..starts.len() {
        let end = if k + 1 < starts.len() { starts[k + 1] } else { text.len() };
        lines.push(text[starts[k]..end].iter().collect());
    }
    lines
}

fn check_against_model(text: &str) {
    let chars: Vec<char> = text.chars().collect();
    let store = TextStore::from_str(text);
    let starts = line_starts(&chars);
    assert_eq!(store.len_chars(), chars.len(), "len_chars of {:?}", text);
    assert_eq!(store.len_lines(), starts.len(), "len_lines of {:?}", text);
    for (k, start) in starts.iter().enumerate() {
        assert_eq!(store.line_to_char(k), Ok(*start), "line {} of {:?}", k, text);
    }
    assert_eq!(store.line_to_char(starts.len()), Ok(chars.len()));
    assert_eq!(store.line_to_char(starts.len() + 1), Err(TextError::OutOfRange));
}

fn check_slices_against_model(text: &str, step: usize) {
    let chars: Vec<char> = text.chars().collect();
    let store = TextStore::from_str(text);
    let mut a = 0;
    while a <= chars.len() {
        let mut b = a;
        while b <= chars.len() {
            let slice = store.slice(a, b).unwrap();
            let lines = Lines { lines: slice, empty: 0 }.to_strings();
            assert_eq!(lines, model_lines(&chars[a..b]), "slice {}..{} of {:?}", a, b, text);
            b += step;
        }
        a += step;
    }
}

const ALPHABET: [char; 9] =
    ['a', '\n', '\r', '\u{000B}', '\u{000C}', '\u{0085}', '\u{2028}', '\u{2029}', 'é'];

fn all_texts(len: usize) -> Vec<String> {
    let mut texts = vec![String::new()];
    for _ in 0..len {
        let mut longer = Vec::new();
        for t in &texts {
            for c in ALPHABET {
                let mut s = t.clone();
                s.push(c);
                longer.push(s);
            }
        }
        texts = longer;
    }
    texts
}

#[test]
fn store_agrees_with_line_model_on_short_texts() {
    for len in 0..=4 {
        for text in all_texts(len) {
            check_against_model(&text);
        }
    }
}

#[test]
fn slices_agree_with_line_model_on_short_texts() {
    for len in 0..=3 {
        for text in all_texts(len) {
            check_slices_against_model(&text, 1);
        }
    }
}

fn long_text() -> String {
    let mut text = String::new();
    for i in 0..900 {
        match i % 7 {
            0 => text.push_str("line\r\n"),
            1 => text.push_str("é\n"),
            2 => text.push_str("\r"),
            3 => text.push_str("a somewhat longer line of text\u{2028}"),
            4 => text.push_str("\r\n\r\n"),
            5 => text.push_str("x\u{0085}y\u{000B}"),
            _ => text.push_str("tail\u{000C}"),
        }
    }
    text
}

#[test]
fn store_agrees_with_line_model_on_a_long_text() {
    check_against_model(&long_text());
}

#[test]
fn slices_agree_with_line_model_on_a_long_text() {
    let text = long_text();
    let chars: Vec<char> = text.chars().collect();
    let store = TextStore::from_str(&text);
    // Ranges of every residue, so that some start or end inside a CR LF pair.
    let mut a = 0;
    while a < chars.len() {
        for len in [0usize, 1, 2, 5, 40, 1500, 4000] {
            let b = (a + len).min(chars.len());
            let slice = store.slice(a, b).unwrap();
            let lines = Lines { lines: slice, empty: 0 }.to_strings();
            assert_eq!(lines, model_lines(&chars[a..b]), "slice {}..{}", a, b);
        }
        a += 37;
    }
    for a in 0..200 {
        for b in [chars.len() - 3, chars.len() - 2, chars.len() - 1, chars.len()] {
            let slice = store.slice(a, b).unwrap();
            let lines = Lines { lines: slice, empty: 0 }.to_strings();
            assert_eq!(lines, model_lines(&chars[a..b]), "slice {}..{}", a, b);
        }
    }
}

#[test]
fn slice_inside_a_crlf_pair() {
    let store = TextStore::from_str("a\r\nb");
    let head = Lines { lines: store.slice(0, 2).unwrap(), empty: 0 }.to_strings();
    assert_eq!(head, vec!["a\r".to_string(), "".to_string()]);
    let tail = Lines { lines: store.slice(2, 4).unwrap(), empty: 0 }.to_strings();
    assert_eq!(tail, vec!["\n".to_string(), "b".to_string()]);
}

#[test]
fn empty_store_has_one_empty_line() {
    let store = TextStore::from_str("");
    assert_eq!(store.len_lines(), 1);
    assert_eq!(store.len_chars(), 0);
    assert_eq!(store.line_to_char(0), Ok(0));
    assert_eq!(store.line_to_char(1), Ok(0));
    let lines = store.slice_lines(0, 0).unwrap();
    assert_eq!(lines.empty, 0);
    assert_eq!(lines.to_strings(), vec!["".to_string()]);
}

#[test]
fn new_store_holds_what_the_rope_holds() {
    let store = TextStore::new(ropey::Rope::from_str("one\ntwo"));
    assert_eq!(store.len_chars(), 7);
    assert_eq!(store.len_lines(), 2);
}

#[test]
fn line_to_char_gives_line_starts() {
    let store = TextStore::from_str("ab\ncde\n\nf");
    assert_eq!(store.len_lines(), 4);
    assert_eq!(store.line_to_char(0), Ok(0));
    assert_eq!(store.line_to_char(1), Ok(3));
    assert_eq!(store.line_to_char(2), Ok(7));
    assert_eq!(store.line_to_char(3), Ok(8));
    assert_eq!(store.line_to_char(4), Ok(9));
}

#[test]
fn line_to_char_is_out_of_range_beyond_one_past_the_end() {
    let store = TextStore::from_str("ab\ncd");
    assert_eq!(store.line_to_char(2), Ok(5));
    assert_eq!(store.line_to_char(3), Err(TextError::OutOfRange));
    assert_eq!(store.line_to_char(usize::MAX), Err(TextError::OutOfRange));
}

#[test]
fn slice_takes_a_character_range() {
    let store = TextStore::from_str("héllo wörld");
    assert_eq!(store.slice(1, 4).unwrap().to_string(), "éll");
    assert_eq!(store.slice(0, 11).unwrap().to_string(), "héllo wörld");
    assert_eq!(store.slice(11, 11).unwrap().to_string(), "");
}

#[test]
fn slice_rejects_bad_ranges() {
    let store = TextStore::from_str("hello");
    assert_eq!(store.slice(3, 2).err(), Some(TextError::InvalidRange));
    assert_eq!(store.slice(0, 6).err(), Some(TextError::OutOfRange));
    assert_eq!(store.slice(7, 6).err(), Some(TextError::InvalidRange));
}

#[test]
fn slice_lines_pads_a_request_beyond_the_store() {
    let store = TextStore::from_str("a\nb\nc\nd\ne");
    assert_eq!(store.len_lines(), 5);
    let lines = store.slice_lines(0, 10).unwrap();
    assert_eq!(lines.empty, 5);
    assert_eq!(lines.lines.to_string(), "a\nb\nc\nd\ne");
    assert_eq!(lines.to_strings(), vec!["a\n", "b\n", "c\n", "d\n", "e"]);
}

#[test]
fn slice_lines_pads_from_a_later_start() {
    let store = TextStore::from_str("a\nb\nc\nd\ne");
    let lines = store.slice_lines(3, 9).unwrap();
    assert_eq!(lines.empty, 1);
    assert_eq!(lines.lines.to_string(), "d\ne");
}

#[test]
fn slice_lines_without_padding_takes_in_the_line_after() {
    let store = TextStore::from_str("a\nb\nc\nd\ne");
    let lines = store.slice_lines(1, 3).unwrap();
    assert_eq!(lines.empty, 0);
    // Lines 1 to 3, with the break of line 3.
    assert_eq!(lines.lines.to_string(), "b\nc\nd\n");
    assert_eq!(lines.to_strings(), vec!["b\n", "c\n", "d\n", ""]);
}

#[test]
fn slice_lines_up_to_the_last_line() {
    let store = TextStore::from_str("a\nb\nc\nd\ne");
    let lines = store.slice_lines(0, 4).unwrap();
    assert_eq!(lines.empty, 0);
    assert_eq!(lines.lines.to_string(), "a\nb\nc\nd\ne");
    let lines = store.slice_lines(4, 4).unwrap();
    assert_eq!(lines.empty, 0);
    assert_eq!(lines.lines.to_string(), "e");
}

#[test]
fn slice_lines_rejects_a_reversed_range() {
    let store = TextStore::from_str("a\nb\nc");
    assert_eq!(store.slice_lines(2, 1).err(), Some(TextError::InvalidRange));
    assert_eq!(store.slice_lines(9, 1).err(), Some(TextError::InvalidRange));
}

#[test]
fn slice_lines_rejects_a_start_beyond_the_store() {
    let store = TextStore::from_str("a\nb\nc");
    assert_eq!(store.slice_lines(4, 4).err(), Some(TextError::OutOfRange));
    assert_eq!(store.slice_lines(4, 40).err(), Some(TextError::OutOfRange));
    // One past the last line is a start like any other.
    let lines = store.slice_lines(3, 9).unwrap();
    assert_eq!(lines.empty, 3);
    assert_eq!(lines.lines.to_string(), "");
}

#[test]
fn slice_lines_rejects_an_unpadded_end_beyond_the_store() {
    let store = TextStore::from_str("a\nb\nc");
    assert_eq!(store.slice_lines(2, 3).err(), Some(TextError::OutOfRange));
    assert_eq!(store.slice_lines(3, 3).err(), Some(TextError::OutOfRange));
    assert_eq!(
        store.slice_lines(usize::MAX - 1, usize::MAX).err(),
        Some(TextError::OutOfRange)
    );
    assert_eq!(store.slice_lines(usize::MAX, usize::MAX).err(), Some(TextError::OutOfRange));
}
