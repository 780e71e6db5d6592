//! What the editor is and does, stated over plain values: the cursor and
//! the window, the commands, the save prompt, and whole sessions.

use vstd::prelude::*;
use crate::document::{deleted, inserted, joined, joins, line_len, removes, DocumentView};
use crate::keys::{command, is_control, Command, Key, KeyPress, Modifiers};
use crate::position::Position;
use crate::terminal::Size;
use crate::text::decimal;

verus! {

/// How often a request to quit must be confirmed while the document has
/// unsaved changes.
pub const QUIT_TIMES: u8 = 3;

/// The editor's state.
pub struct EditorView {
    /// The document that is edited.
    pub document: DocumentView,
    /// Where the cursor stands in the document.
    pub cursor: Position,
    /// The place of the document that is shown in the top left corner.
    pub offset: Position,
    /// The room for text on the screen.
    pub size: Size,
    /// The text of the status message.
    pub status: Seq<char>,
    /// How many more requests to quit are refused while the document has
    /// unsaved changes.
    pub quit_times: u8,
    /// Whether the session is over.
    pub should_quit: bool,
    /// What was typed so far at the prompt for a file name, while that
    /// prompt is open.
    pub prompt: Option<Seq<char>>,
}

/// What the editor is told: a key was pressed, or the document's text,
/// handed out for writing, reached its file or did not.
#[derive(Clone, Copy, Debug, PartialEq, Eq, Structural)]
pub enum Event {
    Key(KeyPress),
    Written(bool),
}

/// The smaller of two numbers.
pub open spec fn least(a: int, b: int) -> int {
    if a <= b {
        a
    } else {
        b
    }
}

/// The greater of two numbers.
pub open spec fn greatest(a: int, b: int) -> int {
    if a >= b {
        a
    } else {
        b
    }
}

/// Where the cursor goes from column `x` of line `y` on the key `key`,
/// before its column is fitted to the line it lands on.
///
/// Up and Down go one line, Page Up and Page Down `height` lines, none of
/// them above the first line or below the line behind the last. Left and
/// Right go one column, and at the start or the end of a line on to the end
/// of the line above or the start of the line below. Home and End go to the
/// ends of the line. Any other key leaves the cursor where it is.
pub open spec fn target(x: int, y: int, key: Key, lines: Seq<Seq<char>>, height: int) -> (
    int,
    int,
) {
    let count = lines.len() as int;
    match key {
        Key::Up => (x, greatest(y - 1, 0)),
        Key::Down => (x, least(y + 1, count)),
        Key::Left => if x > 0 {
            (x - 1, y)
        } else if y > 0 {
            (line_len(lines, y - 1), y - 1)
        } else {
            (x, y)
        },
        Key::Right => if x < line_len(lines, y) {
            (x + 1, y)
        } else if y < count {
            (0, y + 1)
        } else {
            (x, y)
        },
        Key::PageUp => (x, greatest(y - height, 0)),
        Key::PageDown => (x, least(y + height, count)),
        Key::Home => (0, y),
        Key::End => (line_len(lines, y), y),
        _ => (x, y),
    }
}

/// Where the cursor stands after the key `key`: at its [`target`], but no
/// further right than the end of the line it lands on.
pub open spec fn moved(cursor: Position, key: Key, lines: Seq<Seq<char>>, height: int) -> Position {
    let (x, y) = target(cursor.x as int, cursor.y as int, key, lines, height);
    Position { x: least(x, line_len(lines, y)) as usize, y: y as usize }
}

/// The offset of the window along one axis after the cursor has moved to
/// `cursor`: the window, `extent` cells long, moves only if the cursor has
/// left it, and then just as far as brings the cursor back to its edge.
/// (An offset cannot pass `usize::MAX`.)
pub open spec fn scrolled_axis(offset: usize, cursor: usize, extent: u16) -> usize {
    if cursor < offset {
        cursor
    } else if cursor >= offset + extent {
        least(cursor - extent + 1, usize::MAX as int) as usize
    } else {
        offset
    }
}

/// The offset of the window after the cursor has moved to `cursor`.
pub open spec fn scrolled(offset: Position, cursor: Position, size: Size) -> Position {
    Position {
        x: scrolled_axis(offset.x, cursor.x, size.width),
        y: scrolled_axis(offset.y, cursor.y, size.height),
    }
}

/// The message that a session starts with.
pub open spec fn help_message() -> Seq<char> {
    "Help: Ctrl-S = save | Ctrl-Q = quit"@
}

/// The message for a file that could not be read.
pub open spec fn open_failure(file_name: Seq<char>) -> Seq<char> {
    "ERR: Could not open file: "@ + file_name
}

/// The message that refuses to quit while `left` confirmations are owed.
pub open spec fn quit_warning(left: u8) -> Seq<char> {
    "WARNING! File has unsaved changes. Press Ctrl-Q "@ + decimal(left as nat)
        + " more times to quit."@
}

/// What the prompt for a file name shows before what was typed.
pub open spec fn save_prompt() -> Seq<char> {
    "Save as: "@
}

/// The message after a save that was given up.
pub open spec fn save_aborted() -> Seq<char> {
    "Save aborted."@
}

/// The message after a save that went through.
pub open spec fn save_succeeded() -> Seq<char> {
    "File saved successfully."@
}

/// The message after a save that failed.
pub open spec fn save_failed() -> Seq<char> {
    "Error writing file!"@
}

/// The file to write and the text to write to it.
pub struct WriteView {
    pub file_name: Seq<char>,
    pub contents: Seq<char>,
}

impl EditorView {
    /// Whether the cursor stands in the document: on one of its lines or
    /// on the line behind the last, and no further right than the end of
    /// that line.
    pub open spec fn cursor_in_document(self) -> bool {
        self.cursor.y <= self.document.lines.len() && self.cursor.x <= line_len(
            self.document.lines,
            self.cursor.y as int,
        )
    }

    /// Whether the cursor stands on one of the rows of the window.
    pub open spec fn cursor_in_rows(self) -> bool {
        self.offset.y <= self.cursor.y < self.offset.y + self.size.height
    }

    /// Whether the cursor stands in one of the columns of the window.
    pub open spec fn cursor_in_columns(self) -> bool {
        self.offset.x <= self.cursor.x < self.offset.x + self.size.width
    }

    /// The state in which the count of confirmations owed for quitting
    /// starts anew, and a warning about them is taken down.
    pub open spec fn rearmed(self) -> EditorView {
        if self.quit_times < QUIT_TIMES {
            EditorView { quit_times: QUIT_TIMES, status: Seq::empty(), ..self }
        } else {
            self
        }
    }

    /// The state after the window has followed the cursor.
    pub open spec fn scrolled(self) -> EditorView {
        EditorView { offset: scrolled(self.offset, self.cursor, self.size), ..self }
    }

    /// The state after the cursor has moved on the key `key`.
    pub open spec fn navigated(self, key: Key) -> EditorView {
        EditorView {
            cursor: moved(self.cursor, key, self.document.lines, self.size.height as int),
            ..self
        }
    }

    /// The state after `c` was typed: the character stands where the cursor
    /// stood, and the cursor has moved right.
    pub open spec fn typed(self, c: char) -> EditorView {
        let lines = inserted(self.document.lines, self.cursor.x as int, self.cursor.y as int, c);
        EditorView {
            document: DocumentView { lines, dirty: true, ..self.document },
            cursor: moved(self.cursor, Key::Right, lines, self.size.height as int),
            ..self
        }
    }

    /// The state after a deletion at the cursor, which stays where it is.
    pub open spec fn deleted_forward(self) -> EditorView {
        let (x, y) = (self.cursor.x as int, self.cursor.y as int);
        let lines = self.document.lines;
        EditorView {
            document: DocumentView {
                lines: deleted(lines, x, y),
                dirty: self.document.dirty || joins(lines, x, y) || removes(lines, x, y),
                ..self.document
            },
            ..self
        }
    }

    /// The state after a backspace: at the very start of the document
    /// nothing happens; anywhere else the cursor moves left and what it
    /// then stands on is deleted.
    pub open spec fn backspaced(self) -> EditorView {
        if self.cursor.x > 0 || self.cursor.y > 0 {
            self.navigated(Key::Left).deleted_forward()
        } else {
            self
        }
    }

    /// The state in which the prompt for a file name shows `input`.
    pub open spec fn prompting(self, input: Seq<char>) -> EditorView {
        EditorView { prompt: Some(input), status: save_prompt() + input, ..self }
    }

    /// The state after a save was asked for: without a file name the prompt
    /// for one opens; with one nothing changes until the file is written.
    pub open spec fn save_started(self) -> EditorView {
        if self.document.file_name.is_none() {
            self.prompting(Seq::empty())
        } else {
            self
        }
    }

    /// The state after the prompt was given up.
    pub open spec fn prompt_aborted(self) -> EditorView {
        EditorView { prompt: None, status: save_aborted(), ..self }
    }

    /// The state after Enter at the prompt: what was typed becomes the
    /// document's file name; with nothing typed the save is given up.
    pub open spec fn prompt_submitted(self, input: Seq<char>) -> EditorView {
        if input.len() == 0 {
            self.prompt_aborted()
        } else {
            EditorView {
                prompt: None,
                status: Seq::empty(),
                document: DocumentView { file_name: Some(input), ..self.document },
                ..self
            }
        }
    }

    /// The state after a key press at the prompt, which holds `input`.
    ///
    /// Backspace takes the last character off, Enter submits, Escape gives
    /// up, and a character key adds its character unless that is a control
    /// character. A press with a modifier, or of any other key, changes
    /// nothing.
    pub open spec fn prompted(self, input: Seq<char>, press: KeyPress) -> EditorView {
        if press.modifiers != Modifiers::Plain {
            self.prompting(input)
        } else {
            match press.key {
                Key::Backspace => self.prompting(
                    if input.len() > 0 {
                        input.drop_last()
                    } else {
                        input
                    },
                ),
                Key::Enter => self.prompt_submitted(input),
                Key::Esc => self.prompt_aborted(),
                Key::Char(c) => if c == '\n' {
                    self.prompt_submitted(input)
                } else if is_control(c) {
                    self.prompting(input)
                } else {
                    self.prompting(input.push(c))
                },
                _ => self.prompting(input),
            }
        }
    }

    /// Whether a request to quit is refused: the document has unsaved
    /// changes and confirmations are still owed.
    pub open spec fn quit_refused(self) -> bool {
        self.quit_times > 0 && self.document.dirty
    }

    /// The state after a request to quit was refused: one confirmation less
    /// is owed, and a warning says how many were.
    pub open spec fn warned(self) -> EditorView {
        EditorView {
            status: quit_warning(self.quit_times),
            quit_times: (self.quit_times - 1) as u8,
            ..self
        }
    }

    /// The state after the command `given` was carried out.
    pub open spec fn carried_out(self, given: Command) -> EditorView {
        match given {
            Command::Quit => EditorView { should_quit: true, ..self },
            Command::Save => self.save_started(),
            Command::Type(c) => self.typed(c),
            Command::DeleteForward => self.deleted_forward(),
            Command::Backspace => self.backspaced(),
            Command::Navigate(key) => self.navigated(key),
            Command::Ignore => self,
        }
    }

    /// The state after a key press.
    ///
    /// While the prompt for a file name is open, the press goes to the
    /// prompt. Otherwise it gives a command. A request to quit that is
    /// refused leaves a warning and does nothing else. Any other command
    /// starts the count of confirmations anew, is carried out, and the
    /// window follows the cursor.
    pub open spec fn step(self, press: KeyPress) -> EditorView {
        match self.prompt {
            Some(input) => self.prompted(input, press),
            None => {
                let given = command(press);
                if given == Command::Quit && self.quit_refused() {
                    self.warned()
                } else {
                    self.rearmed().carried_out(given).scrolled()
                }
            },
        }
    }

    /// What a key press asks to be written, if anything: the document's
    /// text, to its file, when a save is asked for and the file name is
    /// known, or when a file name is submitted at the prompt.
    pub open spec fn write_request(self, press: KeyPress) -> Option<WriteView> {
        let contents = joined(self.document.lines);
        match self.prompt {
            Some(input) => {
                if press.modifiers == Modifiers::Plain && (press.key == Key::Enter || press.key
                    == Key::Char('\n')) && input.len() > 0 {
                    Some(WriteView { file_name: input, contents })
                } else {
                    None
                }
            },
            None => {
                if command(press) == Command::Save && self.document.file_name.is_some() {
                    Some(WriteView { file_name: self.document.file_name.unwrap(), contents })
                } else {
                    None
                }
            },
        }
    }

    /// The state after the document's text reached its file (`written`) or
    /// did not. Nothing counts as written to a file without a name.
    pub open spec fn save_finished(self, written: bool) -> EditorView {
        if written && self.document.file_name.is_some() {
            EditorView {
                document: DocumentView { dirty: false, ..self.document },
                status: save_succeeded(),
                ..self
            }
        } else {
            EditorView { status: save_failed(), ..self }
        }
    }

    /// The state after one event.
    pub open spec fn handled(self, event: Event) -> EditorView {
        match event {
            Event::Key(press) => self.step(press),
            Event::Written(written) => self.save_finished(written),
        }
    }

    /// How many of `events` a session takes, from this state on: all of
    /// them, or those up to the one that ends the session.
    pub open spec fn taken(self, events: Seq<Event>) -> nat
        decreases events.len(),
    {
        if events.len() == 0 || self.should_quit {
            0
        } else {
            1 + self.handled(events[0]).taken(events.skip(1))
        }
    }

    /// The state at the end of a session that is given `events`: each event
    /// is handled in turn until the session is over.
    pub open spec fn after(self, events: Seq<Event>) -> EditorView
        decreases events.len(),
    {
        if events.len() == 0 || self.should_quit {
            self
        } else {
            self.handled(events[0]).after(events.skip(1))
        }
    }
}

/// The state in which a session starts, in a window of the size `size`.
///
/// Without a file name the document is empty and has no name. With a file
/// name and the text of that file, the document is that file's. With a file
/// name alone, the file could not be read: the document is empty and has no
/// name, and the message says so.
pub open spec fn started(size: Size, file_name: Option<Seq<char>>, text: Option<Seq<char>>) -> EditorView {
    let readable = file_name.is_some() && text.is_some();
    EditorView {
        document: if readable {
            DocumentView {
                lines: crate::document::split_lines(text.unwrap()),
                file_name,
                dirty: false,
            }
        } else {
            DocumentView { lines: Seq::empty(), file_name: None, dirty: false }
        },
        cursor: Position { x: 0, y: 0 },
        offset: Position { x: 0, y: 0 },
        size,
        status: if file_name.is_some() && text.is_none() {
            open_failure(file_name.unwrap())
        } else {
            help_message()
        },
        quit_times: QUIT_TIMES,
        should_quit: false,
        prompt: None,
    }
}

} // verus!
