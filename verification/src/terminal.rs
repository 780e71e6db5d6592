//! The part of the terminal in which the document is shown.

use vstd::prelude::*;

verus! {

/// How many rows of the terminal are kept free of text: the status bar and
/// the message bar.
pub const BAR_ROWS: u16 = 2;

/// A width and a height, in character cells.
#[derive(Clone, Copy, Debug, PartialEq, Eq, Structural)]
pub struct Size {
    pub width: u16,
    pub height: u16,
}

/// The terminal as the editor sees it.
pub struct Terminal {
    size: Size,
}

impl View for Terminal {
    type V = Size;

    closed spec fn view(&self) -> Size {
        self.size
    }
}

/// The room for text in a terminal of `columns` by `rows` cells: all of its
/// columns, and all of its rows but the two of the bars.
pub open spec fn text_area(columns: u16, rows: u16) -> Size {
    Size {
        width: columns,
        height: if rows >= BAR_ROWS {
            (rows - BAR_ROWS) as u16
        } else {
            0
        },
    }
}

impl Terminal {
    /// The terminal of `columns` by `rows` cells.
    pub fn default(columns: u16, rows: u16) -> (terminal: Terminal)
        ensures
            terminal@ == text_area(columns, rows),
    {
        Terminal { size: Size { width: columns, height: rows.saturating_sub(BAR_ROWS) } }
    }

    /// The room for text.
    pub fn size(&self) -> (size: &Size)
        ensures
            *size == self@,
    {
        &self.size
    }
}

} // verus!
