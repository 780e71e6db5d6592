//! What holds of the editor whatever is typed.

use vstd::prelude::*;
use crate::document::{
    deleted, inserted, joined, line_end, line_end_found, line_len, split_lines, without_cr,
};
use crate::keys::{command, Command, Key, KeyPress, Modifiers};
use crate::model::{moved, started, EditorView, Event, QUIT_TIMES};
use crate::position::Position;
use crate::row::{expand_tabs, head, tail};
use crate::terminal::Size;

verus! {

/// Whether a computer can hold `lines`: their number and the length of
/// each of them fit in a `usize`. This holds of every document.
pub open spec fn storable(lines: Seq<Seq<char>>) -> bool {
    lines.len() <= usize::MAX && forall|i: int|
        0 <= i < lines.len() ==> (#[trigger] lines[i]).len() <= usize::MAX
}

/// Line `y` of `lines`, and the empty line where there is no such line.
pub open spec fn line_text(lines: Seq<Seq<char>>, y: int) -> Seq<char> {
    if 0 <= y < lines.len() {
        lines[y]
    } else {
        Seq::empty()
    }
}

/// A line drawn is at least as long as the line itself.
pub proof fn drawn_line_is_no_shorter(line: Seq<char>)
    ensures
        expand_tabs(line).len() >= line.len(),
    decreases line.len(),
{
    if line.len() > 0 {
        drawn_line_is_no_shorter(line.drop_last());
    }
}

/// A line that is cut in two and put together again is the line it was,
/// wherever it is cut.
pub proof fn split_then_append_restores(line: Seq<char>, at: int)
    requires
        0 <= at,
    ensures
        head(line, at) + tail(line, at) == line,
{
}

/// Whether `line` can stand in a file as one line: it holds no newline.
pub open spec fn single_line(line: Seq<char>) -> bool {
    forall|j: int| 0 <= j < line.len() ==> line[j] != '\n'
}

proof fn joined_from_the_front(line: Seq<char>, rest: Seq<Seq<char>>)
    requires
        rest.len() > 0,
    ensures
        joined(seq![line] + rest) == line + seq!['\n'] + joined(rest),
    decreases rest.len(),
{
    let all = seq![line] + rest;
    assert(all.drop_last() =~= seq![line] + rest.drop_last());
    if rest.len() == 1 {
        assert(joined(all.drop_last()) == line);
    } else {
        joined_from_the_front(line, rest.drop_last());
    }
}

/// A document that is saved and opened again has the lines it had, if
/// they can be told apart in the file: no line holds a newline, no line
/// but the last ends in a carriage return, and the last line is not empty.
pub proof fn saved_lines_open_again(lines: Seq<Seq<char>>)
    requires
        forall|i: int| 0 <= i < lines.len() ==> single_line(#[trigger] lines[i]),
        forall|i: int| 0 <= i < lines.len() - 1 ==> without_cr(#[trigger] lines[i]) == lines[i],
        lines.len() > 0 ==> lines.last().len() > 0,
    ensures
        split_lines(joined(lines)) == lines,
    decreases lines.len(),
{
    if lines.len() == 0 {
    } else if lines.len() == 1 {
        let line = lines[0];
        line_end_found(line, line.len() as int);
    } else {
        let line = lines[0];
        let rest = lines.skip(1);
        assert(lines =~= seq![line] + rest);
        joined_from_the_front(line, rest);
        let text = line + seq!['\n'] + joined(rest);
        line_end_found(text, line.len() as int);
        assert(text.take(line.len() as int) =~= line);
        assert(text.skip(line.len() as int + 1) =~= joined(rest));
        saved_lines_open_again(rest);
    }
}

/// No line of a text that is split into lines holds a newline.
pub proof fn split_lines_are_single(text: Seq<char>, i: int)
    requires
        0 <= i < split_lines(text).len(),
    ensures
        single_line(split_lines(text)[i]),
    decreases text.len(),
{
    first_newline_ends_the_line(text);
    let end = line_end(text);
    if 0 <= end < text.len() {
        if i > 0 {
            split_lines_are_single(text.skip(end + 1), i - 1);
        }
    }
}

proof fn first_newline_ends_the_line(text: Seq<char>)
    ensures
        0 <= line_end(text) <= text.len(),
        forall|j: int| 0 <= j < line_end(text) ==> text[j] != '\n',
        line_end(text) < text.len() ==> text[line_end(text)] == '\n',
    decreases text.len(),
{
    if text.len() > 0 && text[0] != '\n' {
        let rest = text.skip(1);
        first_newline_ends_the_line(rest);
        assert forall|j: int| 0 <= j < line_end(text) implies text[j] != '\n' by {
            if j > 0 {
                assert(text[j] == rest[j - 1]);
            }
        }
    }
}

/// Typing a character and then deleting at the same place undoes the
/// typing, for every place in the document and for the place behind its
/// last line.
///
/// In the document the lines are again what they were. Behind the last
/// line an empty line is left: every line still reads as it did.
pub proof fn insert_then_delete_restores(lines: Seq<Seq<char>>, x: int, y: int, c: char)
    requires
        0 <= y <= lines.len(),
        0 <= x <= line_len(lines, y),
    ensures
        y < lines.len() ==> deleted(inserted(lines, x, y, c), x, y) == lines,
        y == lines.len() ==> deleted(inserted(lines, x, y, c), x, y) == lines.push(Seq::empty()),
        forall|i: int| line_text(deleted(inserted(lines, x, y, c), x, y), i) == line_text(lines, i),
{
    let typed = inserted(lines, x, y, c);
    if y < lines.len() {
        if c == '\n' {
            assert(typed[y] + typed[y + 1] == lines[y]);
        } else {
            assert(typed[y].remove(x) == lines[y]);
        }
    } else {
        assert(typed[y].remove(0) =~= Seq::<char>::empty());
    }
}

/// Typing a character and then pressing Backspace leaves the cursor where
/// it was and every line reading as it did.
pub proof fn type_then_backspace_restores(editor: EditorView, c: char)
    requires
        editor.cursor_in_document(),
        storable(editor.document.lines),
        storable(editor.typed(c).document.lines),
    ensures
        editor.typed(c).backspaced().cursor == editor.cursor,
        forall|i: int|
            line_text(editor.typed(c).backspaced().document.lines, i) == line_text(
                editor.document.lines,
                i,
            ),
{
    insert_then_delete_restores(
        editor.document.lines,
        editor.cursor.x as int,
        editor.cursor.y as int,
        c,
    );
}

/// Right at the end of a line of the document leads to the start of the
/// next line (behind the last line, to the place where the document ends).
pub proof fn right_wraps_to_next_line(cursor: Position, lines: Seq<Seq<char>>, height: int)
    requires
        storable(lines),
        cursor.y < lines.len(),
        cursor.x == lines[cursor.y as int].len(),
    ensures
        moved(cursor, Key::Right, lines, height) == (Position { x: 0, y: (cursor.y + 1) as usize }),
{
}

/// Left at the start of any line but the first leads to the end of the
/// line above.
pub proof fn left_wraps_to_previous_line(cursor: Position, lines: Seq<Seq<char>>, height: int)
    requires
        storable(lines),
        cursor.y > 0,
        cursor.x == 0,
    ensures
        moved(cursor, Key::Left, lines, height) == (Position {
            x: line_len(lines, cursor.y - 1) as usize,
            y: (cursor.y - 1) as usize,
        }),
{
}

/// Right across the end of a line and then Left, or Left across the start
/// of a line and then Right, lead back to where the cursor was.
pub proof fn wrapping_is_symmetric(cursor: Position, lines: Seq<Seq<char>>, height: int)
    requires
        storable(lines),
    ensures
        cursor.y < lines.len() && cursor.x == lines[cursor.y as int].len() ==> moved(
            moved(cursor, Key::Right, lines, height),
            Key::Left,
            lines,
            height,
        ) == cursor,
        0 < cursor.y <= lines.len() && cursor.x == 0 ==> moved(
            moved(cursor, Key::Left, lines, height),
            Key::Right,
            lines,
            height,
        ) == cursor,
{
}

/// After every key press that gives a command which is carried out, the
/// cursor stands in the window: on one of its rows if it has any, and in
/// one of its columns if it has any.
pub proof fn command_ends_in_window(editor: EditorView, press: KeyPress)
    requires
        editor.prompt.is_none(),
        command(press) != Command::Quit || !editor.quit_refused(),
    ensures
        editor.size.height > 0 ==> editor.step(press).cursor_in_rows(),
        editor.size.width > 0 ==> editor.step(press).cursor_in_columns(),
{
}

/// A session starts with the cursor in the document and, as far as the
/// window has room, in the window.
pub proof fn session_starts_in_window(
    size: Size,
    file_name: Option<Seq<char>>,
    text: Option<Seq<char>>,
)
    ensures
        started(size, file_name, text).cursor_in_document(),
        size.height > 0 ==> started(size, file_name, text).cursor_in_rows(),
        size.width > 0 ==> started(size, file_name, text).cursor_in_columns(),
{
}

/// No event takes the cursor off the rows of the window, and none takes it
/// out of the columns of the window.
pub proof fn cursor_stays_in_window(editor: EditorView, event: Event)
    ensures
        editor.cursor_in_rows() ==> editor.handled(event).cursor_in_rows(),
        editor.cursor_in_columns() ==> editor.handled(event).cursor_in_columns(),
{
}

/// Whatever happens in a session, at its end the cursor stands on the rows
/// of the window if it did at the start, and in the columns of the window
/// if it did at the start.
pub proof fn session_keeps_cursor_in_window(editor: EditorView, events: Seq<Event>)
    ensures
        editor.cursor_in_rows() ==> editor.after(events).cursor_in_rows(),
        editor.cursor_in_columns() ==> editor.after(events).cursor_in_columns(),
    decreases events.len(),
{
    if events.len() > 0 && !editor.should_quit {
        cursor_stays_in_window(editor, events[0]);
        session_keeps_cursor_in_window(editor.handled(events[0]), events.skip(1));
    }
}

/// A window at the top or the left edge of the document stays there as
/// long as the cursor stands where the window reaches from there: a
/// document that is shorter or narrower than the window is never scrolled.
pub proof fn near_cursor_does_not_scroll(editor: EditorView)
    ensures
        editor.offset.y == 0 && editor.cursor.y < editor.size.height
            ==> editor.scrolled().offset.y == 0,
        editor.offset.x == 0 && editor.cursor.x < editor.size.width
            ==> editor.scrolled().offset.x == 0,
{
}

proof fn navigation_stays_in_document(editor: EditorView, key: Key)
    requires
        editor.cursor_in_document(),
        storable(editor.document.lines),
    ensures
        editor.navigated(key).cursor_in_document(),
{
}

proof fn typing_stays_in_document(editor: EditorView, c: char)
    requires
        editor.cursor_in_document(),
        storable(editor.document.lines),
        storable(editor.typed(c).document.lines),
    ensures
        editor.typed(c).cursor_in_document(),
{
}

proof fn deleting_stays_in_document(editor: EditorView)
    requires
        editor.cursor_in_document(),
    ensures
        editor.deleted_forward().cursor_in_document(),
{
}

/// No event takes the cursor out of the document: it stays on a line, or
/// behind the last, and never stands further right than the end of its line.
pub proof fn cursor_stays_in_document(editor: EditorView, event: Event)
    requires
        editor.cursor_in_document(),
        storable(editor.document.lines),
        storable(editor.handled(event).document.lines),
    ensures
        editor.handled(event).cursor_in_document(),
{
    match event {
        Event::Key(press) => {
            if editor.prompt.is_none() {
                let armed = editor.rearmed();
                match command(press) {
                    Command::Type(c) => {
                        typing_stays_in_document(armed, c);
                    },
                    Command::DeleteForward => {
                        deleting_stays_in_document(armed);
                    },
                    Command::Backspace => {
                        navigation_stays_in_document(armed, Key::Left);
                        deleting_stays_in_document(armed.navigated(Key::Left));
                    },
                    Command::Navigate(key) => {
                        navigation_stays_in_document(armed, key);
                    },
                    _ => {},
                }
            }
        },
        Event::Written(_) => {},
    }
}

/// Whatever happens in a session, the cursor stands in the document at its
/// end if it did at its start.
pub proof fn session_keeps_cursor_in_document(editor: EditorView, events: Seq<Event>)
    requires
        editor.cursor_in_document(),
        forall|n: int| 0 <= n <= events.len() ==> storable(#[trigger] editor.after(events.take(n)).document.lines),
    ensures
        editor.after(events).cursor_in_document(),
    decreases events.len(),
{
    if events.len() > 0 && !editor.should_quit {
        let next = editor.handled(events[0]);
        let rest = events.skip(1);
        assert(editor.after(events.take(0)) == editor);
        assert(events.take(1).skip(1) =~= Seq::<Event>::empty());
        assert(next.after(Seq::<Event>::empty()) == next);
        assert(editor.after(events.take(1)) == next);
        cursor_stays_in_document(editor, events[0]);
        assert forall|n: int| 0 <= n <= rest.len() implies storable(
            #[trigger] next.after(rest.take(n)).document.lines,
        ) by {
            assert(events.take(n + 1).skip(1) =~= rest.take(n));
            assert(editor.after(events.take(n + 1)) == next.after(rest.take(n)));
        }
        session_keeps_cursor_in_document(next, rest);
    }
}

/// Backspace at the very start of the document changes neither the
/// document nor the place of the cursor.
pub proof fn backspace_at_start_does_nothing(editor: EditorView)
    requires
        editor.prompt.is_none(),
        editor.cursor == (Position { x: 0, y: 0 }),
    ensures
        editor.step(KeyPress { key: Key::Backspace, modifiers: Modifiers::Plain }).document
            == editor.document,
        editor.step(KeyPress { key: Key::Backspace, modifiers: Modifiers::Plain }).cursor
            == editor.cursor,
{
}

/// The press that asks to quit.
pub open spec fn quit_press() -> KeyPress {
    KeyPress { key: Key::Char('q'), modifiers: Modifiers::Control }
}

/// The state after `n` requests to quit in a row.
pub open spec fn after_quits(editor: EditorView, n: nat) -> EditorView
    decreases n,
{
    if n == 0 {
        editor
    } else {
        after_quits(editor, (n - 1) as nat).step(quit_press())
    }
}

/// While the document has unsaved changes, a session goes on through as
/// many requests to quit in a row as confirmations are owed, each of which
/// leaves one less owed and the document as it is; the request after them
/// ends the session.
pub proof fn quit_takes_the_owed_confirmations(editor: EditorView, n: nat)
    requires
        editor.prompt.is_none(),
        !editor.should_quit,
        editor.document.dirty,
        n <= editor.quit_times,
    ensures
        !after_quits(editor, n).should_quit,
        after_quits(editor, n).quit_times == editor.quit_times - n,
        after_quits(editor, n).document == editor.document,
        after_quits(editor, n).prompt.is_none(),
        n == editor.quit_times ==> after_quits(editor, n + 1).should_quit,
    decreases n,
{
    if n > 0 {
        quit_takes_the_owed_confirmations(editor, (n - 1) as nat);
    }
}

/// From a fresh count, exactly three requests to quit are refused while
/// the document has unsaved changes: the fourth ends the session.
pub proof fn quit_takes_three_confirmations(editor: EditorView)
    requires
        editor.prompt.is_none(),
        !editor.should_quit,
        editor.document.dirty,
        editor.quit_times == QUIT_TIMES,
    ensures
        !after_quits(editor, 1).should_quit,
        !after_quits(editor, 2).should_quit,
        !after_quits(editor, 3).should_quit,
        after_quits(editor, 4).should_quit,
{
    quit_takes_the_owed_confirmations(editor, 1);
    quit_takes_the_owed_confirmations(editor, 2);
    quit_takes_the_owed_confirmations(editor, 3);
}

/// Without unsaved changes the first request to quit ends the session.
pub proof fn quit_is_immediate_when_saved(editor: EditorView)
    requires
        editor.prompt.is_none(),
        !editor.document.dirty,
    ensures
        editor.step(quit_press()).should_quit,
{
}

/// Every command but a request to quit that is refused starts the count of
/// confirmations anew.
pub proof fn other_commands_reset_the_count(editor: EditorView, press: KeyPress)
    requires
        editor.prompt.is_none(),
        editor.quit_times <= QUIT_TIMES,
        command(press) != Command::Quit || !editor.quit_refused(),
    ensures
        editor.step(press).quit_times == QUIT_TIMES,
{
}

/// No more than three confirmations are ever owed.
pub proof fn count_stays_in_range(editor: EditorView, event: Event)
    requires
        editor.quit_times <= QUIT_TIMES,
    ensures
        editor.handled(event).quit_times <= QUIT_TIMES,
{
}

/// Nothing changes the lines without marking the document as changed, and
/// nothing but the report of a write that went through takes that mark off.
pub proof fn changes_are_remembered(editor: EditorView, event: Event)
    ensures
        editor.handled(event).document.lines != editor.document.lines ==> editor.handled(
            event,
        ).document.dirty,
        editor.document.dirty && !editor.handled(event).document.dirty ==> event
            == Event::Written(true),
{
}

/// A save that fails, or is given up at the prompt, leaves the document as
/// it is, unsaved changes included.
pub proof fn failed_save_changes_nothing(editor: EditorView)
    ensures
        editor.save_finished(false).document == editor.document,
        editor.prompt_aborted().document == editor.document,
{
}

} // verus!
