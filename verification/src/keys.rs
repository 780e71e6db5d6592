//! Key presses, and the commands they stand for.

use vstd::prelude::*;

verus! {

/// A key of the keyboard.
#[derive(Clone, Copy, Debug, PartialEq, Eq, Structural)]
pub enum Key {
    /// A key that types a character.
    Char(char),
    Enter,
    Backspace,
    Delete,
    Esc,
    Up,
    Down,
    Left,
    Right,
    PageUp,
    PageDown,
    Home,
    End,
    /// Any key that the editor has no use for.
    Other,
}

/// What was held down while a key was pressed.
#[derive(Clone, Copy, Debug, PartialEq, Eq, Structural)]
pub enum Modifiers {
    /// Nothing.
    Plain,
    /// The control key, and nothing else.
    Control,
    /// Anything else.
    Other,
}

/// One press of a key.
#[derive(Clone, Copy, Debug, PartialEq, Eq, Structural)]
pub struct KeyPress {
    pub key: Key,
    pub modifiers: Modifiers,
}

/// What a key press asks of the editor.
#[derive(Clone, Copy, Debug, PartialEq, Eq, Structural)]
pub enum Command {
    /// Leave the editor.
    Quit,
    /// Write the document to its file.
    Save,
    /// Put a character where the cursor is; a newline starts a new line.
    Type(char),
    /// Delete what stands under the cursor.
    DeleteForward,
    /// Delete what stands before the cursor.
    Backspace,
    /// Move the cursor; the key is one of the eight that do.
    Navigate(Key),
    /// Nothing: the key press is ignored.
    Ignore,
}

/// Whether `key` moves the cursor.
pub open spec fn navigates(key: Key) -> bool {
    key == Key::Up || key == Key::Down || key == Key::Left || key == Key::Right || key
        == Key::PageUp || key == Key::PageDown || key == Key::Home || key == Key::End
}

/// The command that `press` gives while the document is edited.
///
/// Control with `q` quits and control with `s` saves. Without a modifier, a
/// character key types its character, Enter types a newline, Delete and
/// Backspace delete, and the arrows, Page Up, Page Down, Home and End move
/// the cursor. Every other press is ignored.
pub open spec fn command(press: KeyPress) -> Command {
    if press.modifiers == Modifiers::Control {
        if press.key == Key::Char('q') {
            Command::Quit
        } else if press.key == Key::Char('s') {
            Command::Save
        } else {
            Command::Ignore
        }
    } else if press.modifiers == Modifiers::Plain {
        match press.key {
            Key::Char(c) => Command::Type(c),
            Key::Enter => Command::Type('\n'),
            Key::Delete => Command::DeleteForward,
            Key::Backspace => Command::Backspace,
            Key::Esc => Command::Ignore,
            Key::Other => Command::Ignore,
            key => Command::Navigate(key),
        }
    } else {
        Command::Ignore
    }
}

/// Whether `c` is a control character: one of U+0000 to U+001F or of
/// U+007F to U+009F.
pub open spec fn is_control(c: char) -> bool {
    c as u32 <= 0x1f || 0x7f <= c as u32 <= 0x9f
}

/// Whether `c` is a control character.
pub fn control_char(c: char) -> (control: bool)
    ensures
        control == is_control(c),
{
    let code: u32 = c as u32;
    code <= 0x1f || (0x7f <= code && code <= 0x9f)
}

impl KeyPress {
    /// A press of `key` with nothing held down.
    pub fn plain(key: Key) -> (press: KeyPress)
        ensures
            press == (KeyPress { key, modifiers: Modifiers::Plain }),
    {
        KeyPress { key, modifiers: Modifiers::Plain }
    }

    /// A press of the character key `c` with control held down.
    pub fn control(c: char) -> (press: KeyPress)
        ensures
            press == (KeyPress { key: Key::Char(c), modifiers: Modifiers::Control }),
    {
        KeyPress { key: Key::Char(c), modifiers: Modifiers::Control }
    }

    /// The command that the press gives while the document is edited.
    pub fn command(&self) -> (given: Command)
        ensures
            given == command(*self),
            given matches Command::Navigate(key) ==> navigates(key),
    {
        match self.modifiers {
            Modifiers::Control => match self.key {
                Key::Char(c) => {
                    if c == 'q' {
                        Command::Quit
                    } else if c == 's' {
                        Command::Save
                    } else {
                        Command::Ignore
                    }
                },
                _ => Command::Ignore,
            },
            Modifiers::Plain => match self.key {
                Key::Char(c) => Command::Type(c),
                Key::Enter => Command::Type('\n'),
                Key::Delete => Command::DeleteForward,
                Key::Backspace => Command::Backspace,
                Key::Esc => Command::Ignore,
                Key::Other => Command::Ignore,
                key => Command::Navigate(key),
            },
            Modifiers::Other => Command::Ignore,
        }
    }
}

} // verus!
