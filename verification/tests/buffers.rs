use femto::buffer::Buffer;
use femto::editor::{TO_LINE_END, TO_LINE_START};
use femto::file_buffer::FileBuffer;
use femto::line_buffer::LineBuffer;
use femto::screen::Screen;

fn texts(buffer: &FileBuffer) -> Vec<String> {
    buffer.lines().iter().map(|line| line.iter().collect()).collect()
}

fn text(buffer: &LineBuffer) -> String {
    buffer.line().iter().collect()
}

fn wide() -> Screen {
    Screen::new(80, 24)
}

fn loaded(content: &str) -> FileBuffer {
    let mut buffer = FileBuffer::new();
    buffer.load(String::from("file"), content);
    buffer
}

#[test]
fn new_document_has_one_empty_line() {
    let buffer = FileBuffer::new();
    assert_eq!(texts(&buffer), vec![""]);
    assert_eq!(buffer.caret(), (0, 0));
    assert_eq!(buffer.viewport(), (0, 0));
    assert_eq!(buffer.path(), "");
}

#[test]
fn newline_splits_line_at_caret() {
    let mut buffer = loaded("hello\nworld\n");
    buffer.move_caret(0, 2, wide());
    buffer.push('\n', wide());
    assert_eq!(texts(&buffer), vec!["he", "llo", "world"]);
    assert_eq!(buffer.caret(), (1, 0));
}

#[test]
fn newline_at_line_end_adds_empty_line() {
    let mut buffer = loaded("hello\n");
    buffer.move_caret(0, TO_LINE_END, wide());
    buffer.push('\n', wide());
    assert_eq!(texts(&buffer), vec!["hello", ""]);
    assert_eq!(buffer.caret(), (1, 0));
}

#[test]
fn character_is_inserted_at_caret() {
    let mut buffer = loaded("hllo\n");
    buffer.move_caret(0, 1, wide());
    buffer.push('e', wide());
    assert_eq!(texts(&buffer), vec!["hello"]);
    assert_eq!(buffer.caret(), (0, 2));
}

#[test]
fn backspace_at_document_start_does_nothing() {
    let mut buffer = loaded("foo\nbar\n");
    buffer.backspace(wide());
    assert_eq!(texts(&buffer), vec!["foo", "bar"]);
    assert_eq!(buffer.caret(), (0, 0));
}

#[test]
fn backspace_merge_keeps_other_lines() {
    let mut buffer = loaded("a\nbc\nde\nf\n");
    buffer.move_caret(2, 0, wide());
    buffer.backspace(wide());
    assert_eq!(texts(&buffer), vec!["a", "bcde", "f"]);
    assert_eq!(buffer.caret(), (1, 2));
}

#[test]
fn delete_removes_character_at_caret() {
    let mut buffer = loaded("hello\n");
    buffer.move_caret(0, 1, wide());
    buffer.delete();
    assert_eq!(texts(&buffer), vec!["hllo"]);
    assert_eq!(buffer.caret(), (0, 1));
}

#[test]
fn delete_at_line_end_merges_next_line() {
    let mut buffer = loaded("foo\nbar\nbaz\n");
    buffer.move_caret(0, 3, wide());
    let viewport = buffer.viewport();
    buffer.delete();
    assert_eq!(texts(&buffer), vec!["foobar", "baz"]);
    assert_eq!(buffer.caret(), (0, 3));
    assert_eq!(buffer.viewport(), viewport);
}

#[test]
fn delete_at_document_end_does_nothing() {
    let mut buffer = loaded("foo\nbar\n");
    buffer.move_caret(1, 3, wide());
    buffer.delete();
    assert_eq!(texts(&buffer), vec!["foo", "bar"]);
    assert_eq!(buffer.caret(), (1, 3));
}

#[test]
fn caret_is_clamped_to_document() {
    let mut buffer = loaded("hello\nhi\n");
    buffer.move_caret(-1, -1, wide());
    assert_eq!(buffer.caret(), (0, 0));
    buffer.move_caret(0, 9, wide());
    assert_eq!(buffer.caret(), (0, 5));
    buffer.move_caret(5, 0, wide());
    assert_eq!(buffer.caret(), (1, 2));
    buffer.move_caret(0, 1, wide());
    assert_eq!(buffer.caret(), (1, 2));
    buffer.move_caret(-1, 1, wide());
    assert_eq!(buffer.caret(), (0, 3));
}

#[test]
fn extreme_deltas_reach_the_ends() {
    let mut buffer = loaded("hello\nhi\nworld!\n");
    buffer.move_caret(i32::MAX, i32::MAX, wide());
    assert_eq!(buffer.caret(), (2, 6));
    buffer.move_caret(i32::MIN, i32::MIN, wide());
    assert_eq!(buffer.caret(), (0, 0));
    buffer.move_caret(1, TO_LINE_END, wide());
    assert_eq!(buffer.caret(), (1, 2));
    buffer.move_caret(1, TO_LINE_START, wide());
    assert_eq!(buffer.caret(), (2, 0));
    assert_eq!(TO_LINE_START, i32::MIN / 2);
    assert_eq!(TO_LINE_END, i32::MAX / 2);
}

#[test]
fn viewport_follows_caret_rows() {
    let small = Screen::new(10, 5);
    let mut buffer = loaded("0\n1\n2\n3\n4\n5\n6\n7\n8\n9\n");
    buffer.move_caret(3, 0, small);
    assert_eq!(buffer.viewport(), (0, 0));
    buffer.move_caret(2, 0, small);
    assert_eq!(buffer.caret(), (5, 0));
    assert_eq!(buffer.viewport(), (2, 0));
    buffer.move_caret(-2, 0, small);
    assert_eq!(buffer.viewport(), (2, 0));
    buffer.move_caret(-2, 0, small);
    assert_eq!(buffer.caret(), (1, 0));
    assert_eq!(buffer.viewport(), (1, 0));
    buffer.move_caret(100, 0, small);
    assert_eq!(buffer.caret(), (9, 0));
    assert_eq!(buffer.viewport(), (6, 0));
}

#[test]
fn viewport_follows_caret_columns() {
    let small = Screen::new(10, 5);
    let mut buffer = loaded("abcdefghijklmnopqrstuvwxyz0123\n");
    buffer.move_caret(0, 9, small);
    assert_eq!(buffer.viewport(), (0, 0));
    buffer.move_caret(0, 11, small);
    assert_eq!(buffer.caret(), (0, 20));
    assert_eq!(buffer.viewport(), (0, 11));
    buffer.move_caret(0, -15, small);
    assert_eq!(buffer.caret(), (0, 5));
    assert_eq!(buffer.viewport(), (0, 5));
    buffer.move_caret(0, TO_LINE_END, small);
    assert_eq!(buffer.caret(), (0, 30));
    assert_eq!(buffer.viewport(), (0, 21));
}

#[test]
fn caret_stays_in_view_after_every_motion() {
    let small = Screen::new(7, 4);
    let mut buffer = loaded("one\ntwo two two\n\nthree three three three\nfour\nfive five\n");
    let moves = [(1, 4), (2, 30), (-1, -3), (5, 0), (0, -100), (-2, 12), (-9, 1), (3, 3), (0, 40)];
    for (row, col) in moves {
        buffer.move_caret(row, col, small);
        let (r, c) = buffer.caret();
        let (top, left) = buffer.viewport();
        assert!(r < buffer.lines().len());
        assert!(c <= buffer.lines()[r].len());
        assert!(top <= r && r < top + 3);
        assert!(left <= c && c < left + 7);
    }
}

#[test]
fn typing_scrolls_the_viewport() {
    let small = Screen::new(4, 3);
    let mut buffer = FileBuffer::new();
    for c in "abcdef".chars() {
        buffer.push(c, small);
    }
    assert_eq!(buffer.caret(), (0, 6));
    assert_eq!(buffer.viewport(), (0, 3));
    buffer.push('\n', small);
    assert_eq!(buffer.caret(), (1, 0));
    assert_eq!(buffer.viewport(), (0, 0));
    buffer.push('\n', small);
    assert_eq!(buffer.caret(), (2, 0));
    assert_eq!(buffer.viewport(), (1, 0));
    buffer.backspace(small);
    buffer.backspace(small);
    assert_eq!(buffer.caret(), (0, 6));
    assert_eq!(buffer.viewport(), (0, 3));
}

#[test]
fn degenerate_screen_pins_viewport_to_caret() {
    let none = Screen::new(0, 0);
    let mut buffer = loaded("hello\nworld\n");
    buffer.move_caret(1, 3, none);
    assert_eq!(buffer.caret(), (1, 3));
    assert_eq!(buffer.viewport(), (1, 3));
    buffer.push('x', none);
    assert_eq!(buffer.viewport(), (1, 4));
}

#[test]
fn insert_then_backspace_restores_document() {
    let mut buffer = loaded("hello\nworld\n");
    buffer.move_caret(1, 2, wide());
    buffer.push('x', wide());
    assert_eq!(texts(&buffer), vec!["hello", "woxrld"]);
    buffer.backspace(wide());
    assert_eq!(texts(&buffer), vec!["hello", "world"]);
    assert_eq!(buffer.caret(), (1, 2));
}

#[test]
fn newline_then_backspace_restores_document() {
    let mut buffer = loaded("hello\nworld\n");
    buffer.move_caret(0, 3, wide());
    buffer.push('\n', wide());
    assert_eq!(texts(&buffer), vec!["hel", "lo", "world"]);
    buffer.backspace(wide());
    assert_eq!(texts(&buffer), vec!["hello", "world"]);
    assert_eq!(buffer.caret(), (0, 3));
}

#[test]
fn load_replaces_document_and_resets_caret() {
    let small = Screen::new(5, 3);
    let mut buffer = loaded("0123456789\n1\n2\n3\n");
    buffer.move_caret(3, 0, small);
    buffer.move_caret(-3, 9, small);
    assert_eq!(buffer.viewport(), (0, 5));
    buffer.load(String::from("other.txt"), "a\nb");
    assert_eq!(texts(&buffer), vec!["a", "b"]);
    assert_eq!(buffer.caret(), (0, 0));
    assert_eq!(buffer.viewport(), (0, 0));
    assert_eq!(buffer.path(), "other.txt");
}

#[test]
fn load_of_empty_text_gives_one_empty_line() {
    assert_eq!(texts(&loaded("")), vec![""]);
    assert_eq!(texts(&loaded("\n")), vec![""]);
    assert_eq!(texts(&loaded("\n\n")), vec!["", ""]);
}

#[test]
fn load_drops_carriage_return_before_line_feed() {
    assert_eq!(texts(&loaded("a\r\nb\r\n")), vec!["a", "b"]);
    assert_eq!(texts(&loaded("a\r\r\nb")), vec!["a\r", "b"]);
    assert_eq!(texts(&loaded("a\rb\n")), vec!["a\rb"]);
    assert_eq!(texts(&loaded("a\nb\r")), vec!["a", "b\r"]);
    assert_eq!(texts(&loaded("\r\n")), vec![""]);
}

#[test]
fn save_ends_every_line_with_line_feed() {
    assert_eq!(FileBuffer::new().save(), "\n");
    assert_eq!(loaded("ab\nc").save(), "ab\nc\n");
    assert_eq!(loaded("ab\n\nc\n").save(), "ab\n\nc\n");
}

#[test]
fn save_then_load_reproduces_lines() {
    let mut buffer = loaded("first\n\n  third line \nfourth\tline\nlast");
    buffer.move_caret(2, 3, wide());
    buffer.push('\n', wide());
    buffer.push('é', wide());
    let lines = texts(&buffer);
    let saved = buffer.save();
    let mut other = FileBuffer::new();
    other.load(String::from("copy"), &saved);
    assert_eq!(texts(&other), lines);
    assert_eq!(other.save(), saved);
}

#[test]
fn saved_to_records_path_only() {
    let small = Screen::new(5, 3);
    let mut buffer = loaded("0123456789\n1\n2\n3\n");
    buffer.move_caret(3, 0, small);
    buffer.move_caret(-1, 1, small);
    let (lines, caret, viewport) = (texts(&buffer), buffer.caret(), buffer.viewport());
    assert_eq!(buffer.path(), "file");
    buffer.saved_to(String::from("elsewhere.txt"));
    assert_eq!(buffer.path(), "elsewhere.txt");
    assert_eq!(texts(&buffer), lines);
    assert_eq!(buffer.caret(), caret);
    assert_eq!(buffer.viewport(), viewport);
}

#[test]
fn line_gives_the_line_under_the_caret() {
    let mut buffer = loaded("foo\nbar\n");
    buffer.move_caret(1, 0, wide());
    assert_eq!(buffer.line().iter().collect::<String>(), "bar");
    buffer.line().push('!');
    assert_eq!(texts(&buffer), vec!["foo", "bar!"]);
}

#[test]
fn line_buffer_starts_empty() {
    let buffer = LineBuffer::default();
    assert_eq!(text(&buffer), "");
    assert_eq!(buffer.col(), 0);
}

#[test]
fn line_buffer_filled_has_caret_at_end() {
    let buffer = LineBuffer::filled("notes.txt".chars().collect());
    assert_eq!(text(&buffer), "notes.txt");
    assert_eq!(buffer.col(), 9);
}

#[test]
fn line_buffer_inserts_at_caret() {
    let mut buffer = LineBuffer::default();
    for c in "abd".chars() {
        buffer.push(c, wide());
    }
    buffer.move_caret(0, -1, wide());
    buffer.push('c', wide());
    assert_eq!(text(&buffer), "abcd");
    assert_eq!(buffer.col(), 3);
}

#[test]
fn line_buffer_ignores_line_feed() {
    let mut buffer = LineBuffer::filled("ab".chars().collect());
    buffer.push('\n', wide());
    assert_eq!(text(&buffer), "ab");
    assert_eq!(buffer.col(), 2);
}

#[test]
fn line_buffer_backspace_and_delete() {
    let mut buffer = LineBuffer::filled("abcd".chars().collect());
    buffer.delete();
    assert_eq!(text(&buffer), "abcd");
    buffer.backspace(wide());
    assert_eq!(text(&buffer), "abc");
    assert_eq!(buffer.col(), 3);
    buffer.move_caret(0, TO_LINE_START, wide());
    buffer.backspace(wide());
    assert_eq!(text(&buffer), "abc");
    assert_eq!(buffer.col(), 0);
    buffer.delete();
    assert_eq!(text(&buffer), "bc");
    assert_eq!(buffer.col(), 0);
}

#[test]
fn line_buffer_caret_is_clamped_and_has_no_rows() {
    let mut buffer = LineBuffer::filled("abcd".chars().collect());
    buffer.move_caret(0, 1, wide());
    assert_eq!(buffer.col(), 4);
    buffer.move_caret(-3, -1, wide());
    assert_eq!(buffer.col(), 3);
    buffer.move_caret(7, 0, wide());
    assert_eq!(buffer.col(), 3);
    buffer.move_caret(0, i32::MIN, wide());
    assert_eq!(buffer.col(), 0);
    buffer.move_caret(0, TO_LINE_END, wide());
    assert_eq!(buffer.col(), 4);
}

#[test]
fn line_buffer_insert_then_backspace_restores_line() {
    let mut buffer = LineBuffer::filled("abcd".chars().collect());
    buffer.move_caret(0, -2, wide());
    buffer.push('x', wide());
    assert_eq!(text(&buffer), "abxcd");
    buffer.backspace(wide());
    assert_eq!(text(&buffer), "abcd");
    assert_eq!(buffer.col(), 2);
}

fn type_back_and_forth<B: Buffer>(buffer: &mut B) {
    let screen = Screen::new(6, 3);
    for c in "abcdef".chars() {
        buffer.push(c, screen);
    }
    buffer.move_caret(0, -3, screen);
    buffer.backspace(screen);
    buffer.delete();
    buffer.push('-', screen);
}

#[test]
fn both_buffers_edit_alike() {
    let mut document = FileBuffer::new();
    type_back_and_forth(&mut document);
    assert_eq!(texts(&document), vec!["ab-ef"]);
    assert_eq!(document.caret(), (0, 3));
    let mut line = LineBuffer::default();
    type_back_and_forth(&mut line);
    assert_eq!(text(&line), "ab-ef");
    assert_eq!(line.col(), 3);
}
