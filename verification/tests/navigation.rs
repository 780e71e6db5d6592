use rtt::{Editor, Key, KeyPress, Position, Terminal};

fn with_text(text: &str, columns: u16, rows: u16) -> Editor {
    Editor::default(
        Terminal::default(columns, rows),
        Some("file.txt".to_string()),
        Some(text.to_string()),
    )
}

fn press(editor: &mut Editor, key: Key) {
    editor.process_keypress(KeyPress::plain(key));
}

fn at(x: usize, y: usize) -> Position {
    Position { x, y }
}

fn in_window(editor: &Editor, columns: usize, rows: usize) -> bool {
    let cursor = editor.cursor_position();
    let offset = editor.offset();
    offset.y <= cursor.y
        && cursor.y < offset.y + rows
        && offset.x <= cursor.x
        && cursor.x < offset.x + columns
}

#[test]
fn up_stops_at_the_first_line() {
    let mut editor = with_text("a\nb", 80, 24);
    press(&mut editor, Key::Up);
    assert_eq!(editor.cursor_position(), at(0, 0));
    press(&mut editor, Key::Down);
    press(&mut editor, Key::Up);
    assert_eq!(editor.cursor_position(), at(0, 0));
}

#[test]
fn down_stops_behind_the_last_line() {
    let mut editor = with_text("a\nb", 80, 24);
    press(&mut editor, Key::Down);
    assert_eq!(editor.cursor_position(), at(0, 1));
    press(&mut editor, Key::Down);
    assert_eq!(editor.cursor_position(), at(0, 2));
    press(&mut editor, Key::Down);
    assert_eq!(editor.cursor_position(), at(0, 2));
}

#[test]
fn vertical_moves_fit_the_column_to_the_line() {
    let mut editor = with_text("long line\nab\n\nlonger line", 80, 24);
    press(&mut editor, Key::End);
    assert_eq!(editor.cursor_position(), at(9, 0));
    press(&mut editor, Key::Down);
    assert_eq!(editor.cursor_position(), at(2, 1));
    press(&mut editor, Key::Down);
    assert_eq!(editor.cursor_position(), at(0, 2));
    press(&mut editor, Key::Down);
    assert_eq!(editor.cursor_position(), at(0, 3));
    press(&mut editor, Key::End);
    press(&mut editor, Key::Up);
    assert_eq!(editor.cursor_position(), at(0, 2));
}

#[test]
fn right_at_line_end_goes_to_the_next_line() {
    let mut editor = with_text("ab\ncd", 80, 24);
    press(&mut editor, Key::Right);
    press(&mut editor, Key::Right);
    assert_eq!(editor.cursor_position(), at(2, 0));
    press(&mut editor, Key::Right);
    assert_eq!(editor.cursor_position(), at(0, 1));
}

#[test]
fn right_at_the_end_of_the_last_line_goes_behind_it() {
    let mut editor = with_text("ab", 80, 24);
    press(&mut editor, Key::End);
    press(&mut editor, Key::Right);
    assert_eq!(editor.cursor_position(), at(0, 1));
    press(&mut editor, Key::Right);
    assert_eq!(editor.cursor_position(), at(0, 1));
}

#[test]
fn left_at_line_start_goes_to_the_end_of_the_line_above() {
    let mut editor = with_text("abc\ncd", 80, 24);
    press(&mut editor, Key::Down);
    assert_eq!(editor.cursor_position(), at(0, 1));
    press(&mut editor, Key::Left);
    assert_eq!(editor.cursor_position(), at(3, 0));
    press(&mut editor, Key::Left);
    assert_eq!(editor.cursor_position(), at(2, 0));
}

#[test]
fn left_at_the_start_of_the_document_stays() {
    let mut editor = with_text("abc", 80, 24);
    press(&mut editor, Key::Left);
    assert_eq!(editor.cursor_position(), at(0, 0));
}

#[test]
fn right_then_left_across_a_line_end_comes_back() {
    let mut editor = with_text("abc\n\nxy", 80, 24);
    for _ in 0..3 {
        press(&mut editor, Key::End);
        let before = editor.cursor_position();
        press(&mut editor, Key::Right);
        assert_eq!(editor.cursor_position(), at(0, before.y + 1));
        press(&mut editor, Key::Left);
        assert_eq!(editor.cursor_position(), before);
        press(&mut editor, Key::Down);
    }
}

#[test]
fn home_and_end_go_to_the_ends_of_the_line() {
    let mut editor = with_text("hello", 80, 24);
    press(&mut editor, Key::End);
    assert_eq!(editor.cursor_position(), at(5, 0));
    press(&mut editor, Key::Home);
    assert_eq!(editor.cursor_position(), at(0, 0));
    press(&mut editor, Key::Down);
    press(&mut editor, Key::End);
    assert_eq!(editor.cursor_position(), at(0, 1));
}

#[test]
fn page_down_and_page_up_move_by_the_height() {
    let text = "x\n".repeat(30);
    let mut editor = with_text(&text, 80, 12);
    press(&mut editor, Key::PageDown);
    assert_eq!(editor.cursor_position(), at(0, 10));
    press(&mut editor, Key::PageDown);
    assert_eq!(editor.cursor_position(), at(0, 20));
    press(&mut editor, Key::PageDown);
    assert_eq!(editor.cursor_position(), at(0, 30));
    press(&mut editor, Key::PageDown);
    assert_eq!(editor.cursor_position(), at(0, 30));
    press(&mut editor, Key::PageUp);
    assert_eq!(editor.cursor_position(), at(0, 20));
    press(&mut editor, Key::PageUp);
    press(&mut editor, Key::PageUp);
    assert_eq!(editor.cursor_position(), at(0, 0));
    press(&mut editor, Key::Down);
    press(&mut editor, Key::PageUp);
    assert_eq!(editor.cursor_position(), at(0, 0));
}

#[test]
fn page_moves_keep_the_column_where_the_line_allows() {
    let mut editor = with_text("abcdef\n1\n2\nabc", 80, 5);
    press(&mut editor, Key::End);
    press(&mut editor, Key::PageDown);
    assert_eq!(editor.cursor_position(), at(3, 3));
}

#[test]
fn window_follows_the_cursor_down_and_up() {
    let text = "x\n".repeat(30);
    let mut editor = with_text(&text, 80, 12);
    for _ in 0..9 {
        press(&mut editor, Key::Down);
    }
    assert_eq!(editor.cursor_position(), at(0, 9));
    assert_eq!(editor.offset(), at(0, 0));
    press(&mut editor, Key::Down);
    assert_eq!(editor.cursor_position(), at(0, 10));
    assert_eq!(editor.offset(), at(0, 1));
    press(&mut editor, Key::PageDown);
    assert_eq!(editor.cursor_position(), at(0, 20));
    assert_eq!(editor.offset(), at(0, 11));
    press(&mut editor, Key::Up);
    assert_eq!(editor.offset(), at(0, 11));
    for _ in 0..9 {
        press(&mut editor, Key::Up);
    }
    assert_eq!(editor.cursor_position(), at(0, 10));
    assert_eq!(editor.offset(), at(0, 10));
    press(&mut editor, Key::PageUp);
    assert_eq!(editor.cursor_position(), at(0, 0));
    assert_eq!(editor.offset(), at(0, 0));
}

#[test]
fn window_follows_the_cursor_right_and_left() {
    let mut editor = with_text("0123456789abcdefghij", 10, 12);
    for _ in 0..9 {
        press(&mut editor, Key::Right);
    }
    assert_eq!(editor.offset(), at(0, 0));
    press(&mut editor, Key::Right);
    assert_eq!(editor.cursor_position(), at(10, 0));
    assert_eq!(editor.offset(), at(1, 0));
    press(&mut editor, Key::End);
    assert_eq!(editor.cursor_position(), at(20, 0));
    assert_eq!(editor.offset(), at(11, 0));
    press(&mut editor, Key::Left);
    assert_eq!(editor.offset(), at(11, 0));
    press(&mut editor, Key::Home);
    assert_eq!(editor.offset(), at(0, 0));
}

#[test]
fn cursor_stays_in_the_window_whatever_is_pressed() {
    let text = "a line that is rather long for this window\nshort\n\n".repeat(12);
    let mut editor = with_text(&text, 7, 6);
    let keys = [
        Key::Down, Key::End, Key::PageDown, Key::Right, Key::Right, Key::Up, Key::Home,
        Key::PageDown, Key::PageDown, Key::End, Key::Left, Key::PageUp, Key::Down, Key::Down,
        Key::End, Key::Char('x'), Key::Enter, Key::Backspace, Key::Delete, Key::PageDown,
        Key::PageDown, Key::PageDown, Key::PageDown, Key::PageDown, Key::PageDown, Key::PageDown,
        Key::PageDown, Key::PageDown, Key::PageDown, Key::Up, Key::End, Key::Left,
    ];
    assert!(in_window(&editor, 7, 4));
    for round in 0..3 {
        for key in keys {
            press(&mut editor, key);
            assert!(in_window(&editor, 7, 4), "after {:?} in round {}", key, round);
            let cursor = editor.cursor_position();
            assert!(cursor.y <= editor.document().line_count());
            let len = editor.document().line_at(cursor.y).map_or(0, |row| row.length());
            assert!(cursor.x <= len);
        }
    }
}

#[test]
fn scroll_alone_brings_the_window_to_the_cursor() {
    let text = "x\n".repeat(30);
    let mut editor = with_text(&text, 80, 12);
    for _ in 0..15 {
        editor.move_cursor(Key::Down);
    }
    assert_eq!(editor.cursor_position(), at(0, 15));
    assert_eq!(editor.offset(), at(0, 0));
    editor.scroll();
    assert_eq!(editor.offset(), at(0, 6));
    editor.scroll();
    assert_eq!(editor.offset(), at(0, 6));
}

#[test]
fn move_cursor_ignores_keys_that_do_not_move() {
    let mut editor = with_text("abc\ndef", 80, 24);
    editor.move_cursor(Key::Right);
    for key in [Key::Char('x'), Key::Enter, Key::Delete, Key::Backspace, Key::Esc, Key::Other] {
        editor.move_cursor(key);
        assert_eq!(editor.cursor_position(), at(1, 0));
    }
}

#[test]
fn window_without_rows_never_holds_the_cursor() {
    let mut editor = with_text("a\nb\nc", 80, 2);
    assert_eq!(editor.offset(), at(0, 0));
    press(&mut editor, Key::Down);
    assert_eq!(editor.cursor_position(), at(0, 1));
    assert_eq!(editor.offset(), at(0, 2));
}

#[test]
fn short_document_is_never_scrolled() {
    let mut editor = with_text("one\ntwo\nthree", 80, 12);
    let keys = [
        Key::Down, Key::Down, Key::Down, Key::Down, Key::End, Key::PageDown, Key::Up, Key::End,
        Key::PageUp, Key::Right, Key::Right, Key::Right, Key::Right, Key::Left, Key::Home,
    ];
    for key in keys {
        press(&mut editor, key);
        assert_eq!(editor.offset(), at(0, 0));
    }
}
