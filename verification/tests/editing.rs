use rtt::{Action, Document, Editor, Event, Key, KeyPress, Modifiers, Position, Terminal};

fn blank() -> Editor {
    Editor::default(Terminal::default(80, 24), None, None)
}

fn with_text(text: &str) -> Editor {
    Editor::default(Terminal::default(80, 24), Some("file.txt".to_string()), Some(text.to_string()))
}

fn lines_of(document: &Document) -> Vec<String> {
    let mut lines = Vec::new();
    let mut i = 0;
    while let Some(row) = document.line_at(i) {
        lines.push(row.text());
        i += 1;
    }
    lines
}

fn type_text(editor: &mut Editor, text: &str) {
    for c in text.chars() {
        let action = editor.process_keypress(KeyPress::plain(Key::Char(c)));
        assert_eq!(action, Action::Redraw);
    }
}

fn press(editor: &mut Editor, key: Key) {
    let action = editor.process_keypress(KeyPress::plain(key));
    assert_eq!(action, Action::Redraw);
}

fn at(x: usize, y: usize) -> Position {
    Position { x, y }
}

#[test]
fn session_starts_at_the_top_left() {
    let editor = blank();
    assert_eq!(editor.cursor_position(), at(0, 0));
    assert_eq!(editor.offset(), at(0, 0));
    assert!(!editor.should_quit());
    assert!(!editor.is_prompting());
    assert_eq!(editor.quit_times(), 3);
    assert!(editor.document().is_empty());
    assert!(editor.document().file_name().is_none());
    assert_eq!(editor.status_message().text(), "Help: Ctrl-S = save | Ctrl-Q = quit");
}

#[test]
fn session_starts_with_the_file_that_was_read() {
    let editor = with_text("abc\ndef");
    assert_eq!(lines_of(editor.document()), vec!["abc", "def"]);
    assert_eq!(editor.document().file_name().map(|name| name.as_str()), Some("file.txt"));
    assert!(!editor.document().is_dirty());
    assert_eq!(editor.status_message().text(), "Help: Ctrl-S = save | Ctrl-Q = quit");
}

#[test]
fn session_starts_empty_when_the_file_could_not_be_read() {
    let editor = Editor::default(Terminal::default(80, 24), Some("missing.txt".to_string()), None);
    assert!(editor.document().is_empty());
    assert!(editor.document().file_name().is_none());
    assert!(!editor.document().is_dirty());
    assert_eq!(editor.status_message().text(), "ERR: Could not open file: missing.txt");
}

#[test]
fn text_without_a_file_name_is_not_opened() {
    let editor = Editor::default(Terminal::default(80, 24), None, Some("stray".to_string()));
    assert!(editor.document().is_empty());
    assert_eq!(editor.status_message().text(), "Help: Ctrl-S = save | Ctrl-Q = quit");
}

#[test]
fn typing_two_lines_into_an_empty_document() {
    let mut editor = blank();
    type_text(&mut editor, "hi");
    press(&mut editor, Key::Enter);
    type_text(&mut editor, "there");
    assert_eq!(lines_of(editor.document()), vec!["hi", "there"]);
    assert_eq!(editor.document().line_count(), 2);
    assert_eq!(editor.cursor_position(), at(5, 1));
    assert!(editor.document().is_dirty());
}

#[test]
fn delete_at_line_end_joins_the_lines() {
    let mut editor = with_text("abc\ndef");
    press(&mut editor, Key::End);
    assert_eq!(editor.cursor_position(), at(3, 0));
    press(&mut editor, Key::Delete);
    assert_eq!(lines_of(editor.document()), vec!["abcdef"]);
    assert_eq!(editor.document().line_count(), 1);
    assert_eq!(editor.cursor_position(), at(3, 0));
    assert!(editor.document().is_dirty());
}

#[test]
fn delete_inside_a_line_keeps_the_cursor() {
    let mut editor = with_text("abc");
    press(&mut editor, Key::Right);
    press(&mut editor, Key::Delete);
    assert_eq!(lines_of(editor.document()), vec!["ac"]);
    assert_eq!(editor.cursor_position(), at(1, 0));
}

#[test]
fn delete_at_the_end_of_the_document_does_nothing() {
    let mut editor = with_text("abc");
    press(&mut editor, Key::End);
    press(&mut editor, Key::Delete);
    press(&mut editor, Key::Down);
    press(&mut editor, Key::Delete);
    assert_eq!(lines_of(editor.document()), vec!["abc"]);
    assert!(!editor.document().is_dirty());
}

#[test]
fn backspace_at_the_start_does_nothing() {
    let mut editor = with_text("abc\ndef");
    press(&mut editor, Key::Backspace);
    assert_eq!(lines_of(editor.document()), vec!["abc", "def"]);
    assert_eq!(editor.cursor_position(), at(0, 0));
    assert!(!editor.document().is_dirty());
    let mut empty = blank();
    press(&mut empty, Key::Backspace);
    assert!(empty.document().is_empty());
    assert_eq!(empty.cursor_position(), at(0, 0));
    assert!(!empty.document().is_dirty());
}

#[test]
fn backspace_deletes_to_the_left() {
    let mut editor = with_text("abc");
    press(&mut editor, Key::End);
    press(&mut editor, Key::Backspace);
    assert_eq!(lines_of(editor.document()), vec!["ab"]);
    assert_eq!(editor.cursor_position(), at(2, 0));
    assert!(editor.document().is_dirty());
}

#[test]
fn backspace_at_line_start_joins_with_the_line_above() {
    let mut editor = with_text("abc\ndef");
    press(&mut editor, Key::Down);
    assert_eq!(editor.cursor_position(), at(0, 1));
    press(&mut editor, Key::Backspace);
    assert_eq!(lines_of(editor.document()), vec!["abcdef"]);
    assert_eq!(editor.cursor_position(), at(3, 0));
}

#[test]
fn typing_then_backspace_restores_line_and_cursor() {
    let mut editor = with_text("abc\ndef");
    press(&mut editor, Key::Right);
    for c in ['x', '\t', '\n'] {
        editor.process_keypress(KeyPress::plain(Key::Char(c)));
        assert_ne!(lines_of(editor.document()), vec!["abc", "def"]);
        press(&mut editor, Key::Backspace);
        assert_eq!(lines_of(editor.document()), vec!["abc", "def"]);
        assert_eq!(editor.cursor_position(), at(1, 0));
    }
}

#[test]
fn enter_in_the_middle_of_a_line_splits_it() {
    let mut editor = with_text("hello");
    press(&mut editor, Key::Right);
    press(&mut editor, Key::Right);
    press(&mut editor, Key::Enter);
    assert_eq!(lines_of(editor.document()), vec!["he", "llo"]);
    assert_eq!(editor.cursor_position(), at(0, 1));
}

#[test]
fn newline_character_key_works_like_enter() {
    let mut editor = with_text("ab");
    press(&mut editor, Key::Right);
    press(&mut editor, Key::Char('\n'));
    assert_eq!(lines_of(editor.document()), vec!["a", "b"]);
    assert_eq!(editor.cursor_position(), at(0, 1));
}

#[test]
fn typing_advances_the_cursor() {
    let mut editor = with_text("ad");
    press(&mut editor, Key::Right);
    type_text(&mut editor, "bc");
    assert_eq!(lines_of(editor.document()), vec!["abcd"]);
    assert_eq!(editor.cursor_position(), at(3, 0));
}

#[test]
fn presses_with_other_modifiers_are_ignored() {
    let mut editor = with_text("abc");
    for key in [Key::Char('A'), Key::Delete, Key::Right, Key::Enter, Key::Backspace, Key::End] {
        let action = editor.process_keypress(KeyPress { key, modifiers: Modifiers::Other });
        assert_eq!(action, Action::Redraw);
    }
    for key in [Key::Char('x'), Key::Delete, Key::Down, Key::Enter, Key::Esc] {
        let action = editor.process_keypress(KeyPress { key, modifiers: Modifiers::Control });
        assert_eq!(action, Action::Redraw);
    }
    press(&mut editor, Key::Esc);
    press(&mut editor, Key::Other);
    assert_eq!(lines_of(editor.document()), vec!["abc"]);
    assert_eq!(editor.cursor_position(), at(0, 0));
    assert!(!editor.document().is_dirty());
    assert!(!editor.should_quit());
}

#[test]
fn run_takes_events_until_the_session_is_over() {
    let mut editor = blank();
    let events = vec![
        Event::Key(KeyPress::plain(Key::Char('a'))),
        Event::Key(KeyPress::control('s')),
        Event::Key(KeyPress::plain(Key::Char('f'))),
        Event::Key(KeyPress::plain(Key::Enter)),
        Event::Written(true),
        Event::Key(KeyPress::control('q')),
        Event::Key(KeyPress::plain(Key::Char('b'))),
    ];
    let taken = editor.run(&events);
    assert_eq!(taken, 6);
    assert!(editor.should_quit());
    assert_eq!(lines_of(editor.document()), vec!["a"]);
    assert_eq!(editor.document().file_name().map(|name| name.as_str()), Some("f"));
    assert!(!editor.document().is_dirty());
}

#[test]
fn run_takes_all_events_of_a_session_that_goes_on() {
    let mut editor = blank();
    let events = vec![
        Event::Key(KeyPress::plain(Key::Char('h'))),
        Event::Key(KeyPress::plain(Key::Char('i'))),
        Event::Key(KeyPress::plain(Key::Enter)),
    ];
    assert_eq!(editor.run(&events), 3);
    assert!(!editor.should_quit());
    assert_eq!(lines_of(editor.document()), vec!["hi", ""]);
    assert_eq!(editor.run(&Vec::new()), 0);
}

#[test]
fn run_of_a_finished_session_takes_nothing() {
    let mut editor = blank();
    assert_eq!(editor.run(&vec![Event::Key(KeyPress::control('q'))]), 1);
    assert!(editor.should_quit());
    assert_eq!(editor.run(&vec![Event::Key(KeyPress::plain(Key::Char('x')))]), 0);
    assert!(editor.document().is_empty());
}

#[test]
fn handle_tells_key_presses_from_write_reports() {
    let mut editor = with_text("abc");
    assert_eq!(editor.handle(Event::Key(KeyPress::plain(Key::Char('x')))), Action::Redraw);
    assert!(editor.document().is_dirty());
    assert_eq!(editor.handle(Event::Written(true)), Action::Redraw);
    assert!(!editor.document().is_dirty());
    assert_eq!(editor.status_message().text(), "File saved successfully.");
}
