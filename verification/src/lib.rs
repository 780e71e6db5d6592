//! A plain-text editor for the terminal, without the terminal: the lines of
//! a document, the cursor and the window on it, what each key press does,
//! and what each frame shows. Reading keys, drawing frames and touching
//! files is left to the caller.

pub mod document;
pub mod editor;
pub mod keys;
pub mod laws;
pub mod model;
pub mod position;
pub mod row;
pub mod screen;
pub mod status;
pub mod terminal;
pub mod text;

pub use document::{Document, SaveError};
pub use editor::{Action, Editor};
pub use keys::{Command, Key, KeyPress, Modifiers};
pub use model::Event;
pub use position::Position;
pub use row::Row;
pub use screen::Frame;
pub use status::StatusMessage;
pub use terminal::{Size, Terminal};
