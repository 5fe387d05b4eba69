use torm::buffer::Buffer;

#[test]
fn empty_buffer_has_no_lines() {
    let b = Buffer::new();
    assert_eq!(b.line_count(), 0);
    assert_eq!(b.content(), "");
    assert_eq!(b.cursor().col(), 0);
    assert_eq!(b.cursor().line(), 0);
}

#[test]
fn content_without_newline_has_zero_line_count() {
    let b = Buffer::from_content(String::from("just one line"));
    assert_eq!(b.line_count(), 0);
}

#[test]
fn nine_line_breaks_give_line_count_nine() {
    let text = "a\nb\nc\nd\ne\nf\ng\nh\ni\nj";
    assert_eq!(text.matches('\n').count(), 9);
    let b = Buffer::from_content(String::from(text));
    assert_eq!(b.line_count(), 9);
}

#[test]
fn trailing_newline_counts_exactly_once() {
    let b = Buffer::from_content(String::from("one\ntwo\n"));
    assert_eq!(b.line_count(), 2);
}

#[test]
fn lone_newline_is_one_line_break() {
    let b = Buffer::from_content(String::from("\n"));
    assert_eq!(b.line_count(), 1);
}

#[test]
fn from_empty_content_matches_new() {
    let b = Buffer::from_content(String::new());
    assert_eq!(b.line_count(), 0);
    assert_eq!(b.content(), "");
}

#[test]
fn non_ascii_content_counts_breaks_by_character() {
    let b = Buffer::from_content(String::from("äß\n漢字\n"));
    assert_eq!(b.line_count(), 2);
}

#[test]
fn buffer_keeps_content_whole() {
    let text = "fn main() {\n    let x = 1;\n}\n";
    let b = Buffer::from_content(String::from(text));
    assert_eq!(b.content(), text);
    assert_eq!(b.line_count(), 3);
}

#[test]
fn cursor_mut_moves_the_embedded_cursor() {
    let mut b = Buffer::from_content(String::from("a\nb"));
    b.cursor_mut().move_down(4);
    b.cursor_mut().move_right(2);
    assert_eq!(b.cursor().line(), 4);
    assert_eq!(b.cursor().col(), 2);
    assert_eq!(b.line_count(), 1);
}

#[test]
fn content_mut_and_line_count_mut_expose_the_fields() {
    let mut b = Buffer::new();
    b.content_mut().push_str("x\ny");
    assert_eq!(b.content(), "x\ny");
    // The stored line count is derived at load time only; it is not
    // recomputed when the content is touched directly.
    assert_eq!(b.line_count(), 0);
    *b.line_count_mut() = 1;
    assert_eq!(b.line_count(), 1);
}
