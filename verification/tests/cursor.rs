use torm::cursor::Cursor;

#[test]
fn cursor_starts_at_origin() {
    let c = Cursor::new();
    assert_eq!(c.col(), 0);
    assert_eq!(c.line(), 0);
}

#[test]
fn cursor_set_and_get() {
    let mut c = Cursor::new();
    c.set_col(7);
    c.set_line(11);
    assert_eq!(c.col(), 7);
    assert_eq!(c.line(), 11);
}

#[test]
fn cursor_up_at_zero_is_noop() {
    let mut c = Cursor::new();
    c.move_up(1);
    assert_eq!(c.line(), 0);
    assert_eq!(c.col(), 0);
}

#[test]
fn cursor_left_at_zero_is_noop() {
    let mut c = Cursor::new();
    c.move_left(1);
    assert_eq!(c.col(), 0);
    assert_eq!(c.line(), 0);
}

#[test]
fn cursor_up_past_zero_is_noop() {
    let mut c = Cursor::new();
    c.set_line(3);
    c.move_up(5);
    assert_eq!(c.line(), 3);
}

#[test]
fn cursor_left_past_zero_is_noop() {
    let mut c = Cursor::new();
    c.set_col(2);
    c.move_left(4);
    assert_eq!(c.col(), 2);
}

#[test]
fn cursor_moves_by_count() {
    let mut c = Cursor::new();
    c.move_down(3);
    c.move_right(2);
    assert_eq!(c.line(), 3);
    assert_eq!(c.col(), 2);
    c.move_up(1);
    c.move_left(1);
    assert_eq!(c.line(), 2);
    assert_eq!(c.col(), 1);
}

#[test]
fn many_up_left_moves_stay_at_origin() {
    let mut c = Cursor::new();
    for i in 0..100u16 {
        if i % 2 == 0 {
            c.move_up(1);
        } else {
            c.move_left(1);
        }
        assert_eq!(c.col(), 0);
        assert_eq!(c.line(), 0);
    }
}

#[test]
fn cursor_position_carries_col_and_line() {
    let mut c = Cursor::new();
    c.set_col(3);
    c.set_line(9);
    let p = c.position();
    assert_eq!(p.x, 3);
    assert_eq!(p.y, 9);
    assert_eq!(p, ratatui::layout::Position::new(3, 9));
}
