//! What the editor shows: the rows of text, the status bar, the message
//! bar, and where the cursor is drawn.

use vstd::prelude::*;
use crate::document::DocumentView;
use crate::model::{greatest, least, EditorView};
use crate::position::Position;
use crate::row::{expand_tabs, window};
use crate::status::message_bar;
use crate::text::{decimal, spaces, truncated};

verus! {

/// The version that the welcome line names.
pub const VERSION: &'static str = "0.1.0";

/// How many characters of a file name the status bar shows.
pub const NAME_WIDTH: usize = 20;

/// What is said on leaving.
pub open spec fn farewell() -> Seq<char> {
    "Goodbye. "@
}

/// What a row of the screen shows where the document has no line.
pub open spec fn blank_row() -> Seq<char> {
    "~"@
}

/// The greeting of an editor without a document.
pub open spec fn welcome_message() -> Seq<char> {
    "RTT - Version: "@ + VERSION@
}

/// The row that greets: a tilde, then the greeting, moved towards the
/// middle of a screen of `width` columns, and cut down to that width.
pub open spec fn welcome_line(width: int) -> Seq<char> {
    let message = welcome_message();
    let padding = greatest(width - message.len(), 0) / 2;
    truncated(blank_row() + spaces(greatest(padding - 1, 0) as nat) + message, width)
}

/// What a row shows of the line `line`: its drawn form from the column
/// `offset` on, `width` columns of it at most.
pub open spec fn drawn_row(line: Seq<char>, offset: usize, width: u16) -> Seq<char> {
    window(expand_tabs(line), offset as int, offset + width)
}

/// What row `r` of the screen shows: the line of the document that falls
/// on it; or, where there is none, a tilde, but for the one row a third
/// down the screen, which greets as long as the document is empty.
pub open spec fn text_row(editor: EditorView, r: int) -> Seq<char> {
    let lines = editor.document.lines;
    let y = editor.offset.y + r;
    if y < lines.len() {
        drawn_row(lines[y], editor.offset.x, editor.size.width)
    } else if lines.len() == 0 && r == editor.size.height / 3 {
        welcome_line(editor.size.width as int)
    } else {
        blank_row()
    }
}

/// The name under which the status bar shows the document: the start of
/// its file name, or a stand-in where it has none.
pub open spec fn shown_name(file_name: Option<Seq<char>>) -> Seq<char> {
    match file_name {
        Some(name) => truncated(name, NAME_WIDTH as int),
        None => "[No Name]"@,
    }
}

/// The left part of the status bar: the document's name, the number of its
/// lines, and a mark if it has unsaved changes.
pub open spec fn status_left(document: DocumentView) -> Seq<char> {
    shown_name(document.file_name) + " - "@ + decimal(document.lines.len()) + " lines"@ + if document.dirty {
        " (modified)"@
    } else {
        Seq::empty()
    }
}

/// The right part of the status bar: the number of the cursor's line,
/// counted from one, and the number of lines.
pub open spec fn line_indicator(y: usize, count: nat) -> Seq<char> {
    decimal(least(y + 1, usize::MAX as int) as nat) + "/"@ + decimal(count)
}

/// The status bar: its left part, its right part, and between them the
/// spaces that move the right part to the right edge; all of it cut down to
/// the width of the screen.
pub open spec fn status_bar(editor: EditorView) -> Seq<char> {
    let width = editor.size.width as int;
    let left = status_left(editor.document);
    let right = line_indicator(editor.cursor.y, editor.document.lines.len());
    truncated(left + spaces(greatest(width - left.len() - right.len(), 0) as nat) + right, width)
}

/// Where on the screen the cursor is drawn: as far from the top left
/// corner as it stands from the window's offset in the document.
pub open spec fn screen_cursor(editor: EditorView) -> Position {
    Position {
        x: greatest(editor.cursor.x - editor.offset.x, 0) as usize,
        y: greatest(editor.cursor.y - editor.offset.y, 0) as usize,
    }
}

/// One drawing of the screen.
#[derive(Clone, Debug, PartialEq, Eq)]
pub enum Frame {
    /// The last one: the screen is cleared and shows the farewell.
    Goodbye { farewell: String },
    /// The rows of text from the top down, the two bars below them, and
    /// the place of the cursor.
    Editing { rows: Vec<String>, status_bar: String, message_bar: String, cursor: Position },
}

impl Frame {
    /// Whether the frame is a drawing of `editor`, with the status message
    /// drawn at some age.
    pub open spec fn shows(self, editor: EditorView) -> bool {
        match self {
            Frame::Goodbye { farewell } => editor.should_quit && farewell@ == self::farewell(),
            Frame::Editing { rows, status_bar, message_bar, cursor } => {
                &&& !editor.should_quit
                &&& rows@.len() == editor.size.height
                &&& forall|r: int| 0 <= r < rows@.len() ==> (#[trigger] rows@[r])@ == text_row(editor, r)
                &&& status_bar@ == self::status_bar(editor)
                &&& exists|age: u64|
                    message_bar@ == self::message_bar(
                        editor.status,
                        age,
                        editor.size.width as int,
                    )
                &&& cursor == screen_cursor(editor)
            },
        }
    }
}

} // verus!
