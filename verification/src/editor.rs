//! The editor: a document, a cursor, a window on the document, and the
//! message at the foot of the screen.

use vstd::prelude::*;
use crate::document::Document;
use crate::keys::{control_char, Command, Key, KeyPress, Modifiers};
use crate::model::{scrolled_axis, started, EditorView, Event, WriteView, QUIT_TIMES};
use crate::position::Position;
use crate::row::Row;
use crate::screen::{
    drawn_row, status_bar, text_row, welcome_line, Frame, NAME_WIDTH, VERSION,
};
use crate::status::{message_bar, StatusMessage};
use crate::terminal::Terminal;
use crate::text::{
    chars_of, push_all, push_decimal, push_spaces, push_str, string_of, text_of, truncate_chars,
};

verus! {

/// What is to be done after a key press.
#[derive(Clone, Debug, PartialEq, Eq)]
pub enum Action {
    /// Nothing but to draw the screen anew.
    Redraw,
    /// `contents` is to be written to the file `file_name`, and the editor
    /// to be told how that went.
    Write { file_name: String, contents: String },
}

impl View for Action {
    type V = Option<WriteView>;

    open spec fn view(&self) -> Option<WriteView> {
        match self {
            Action::Redraw => None,
            Action::Write { file_name, contents } => Some(
                WriteView { file_name: file_name@, contents: contents@ },
            ),
        }
    }
}

/// The editor.
pub struct Editor {
    should_quit: bool,
    terminal: Terminal,
    cursor_position: Position,
    offset: Position,
    document: Document,
    status_message: StatusMessage,
    quit_times: u8,
    prompt: Option<Vec<char>>,
}

impl View for Editor {
    type V = EditorView;

    closed spec fn view(&self) -> EditorView {
        EditorView {
            document: self.document@,
            cursor: self.cursor_position,
            offset: self.offset,
            size: self.terminal@,
            status: self.status_message@,
            quit_times: self.quit_times,
            should_quit: self.should_quit,
            prompt: match self.prompt {
                Some(input) => Some(input@),
                None => None,
            },
        }
    }
}

fn scroll_axis(offset: usize, cursor: usize, extent: u16) -> (scrolled: usize)
    ensures
        scrolled == scrolled_axis(offset, cursor, extent),
{
    let extent = extent as usize;
    if cursor < offset {
        cursor
    } else if cursor - offset >= extent {
        (cursor - extent).saturating_add(1)
    } else {
        offset
    }
}

impl Editor {
    /// The editor at the start of a session: see [`started`].
    ///
    /// `file_name` is the file that was asked for, if one was, and `text`
    /// is what that file holds, if it could be read.
    pub fn default(
        terminal: Terminal,
        file_name: Option<String>,
        text: Option<String>,
    ) -> (editor: Editor)
        ensures
            editor@ == started(terminal@, text_of(file_name), text_of(text)),
    {
        let mut initial_status = "Help: Ctrl-S = save | Ctrl-Q = quit".to_owned();
        let document = match file_name {
            Some(name) => match text {
                Some(text) => Document::open(name.as_str(), text.as_str()),
                None => {
                    let mut message = chars_of("ERR: Could not open file: ");
                    push_str(&mut message, name.as_str());
                    initial_status = string_of(&message);
                    Document::default()
                },
            },
            None => Document::default(),
        };
        Editor {
            should_quit: false,
            terminal,
            document,
            cursor_position: Position::default(),
            offset: Position::default(),
            status_message: StatusMessage::from(initial_status),
            quit_times: QUIT_TIMES,
            prompt: None,
        }
    }

    /// Whether the session is over.
    pub fn should_quit(&self) -> (over: bool)
        ensures
            over == self@.should_quit,
    {
        self.should_quit
    }

    /// Where the cursor stands in the document.
    pub fn cursor_position(&self) -> (cursor: Position)
        ensures
            cursor == self@.cursor,
    {
        self.cursor_position
    }

    /// The place of the document that is shown in the top left corner.
    pub fn offset(&self) -> (offset: Position)
        ensures
            offset == self@.offset,
    {
        self.offset
    }

    /// The document.
    pub fn document(&self) -> (document: &Document)
        ensures
            document@ == self@.document,
    {
        &self.document
    }

    /// The status message.
    pub fn status_message(&self) -> (status: &StatusMessage)
        ensures
            status@ == self@.status,
    {
        &self.status_message
    }

    /// Whether the prompt for a file name is open.
    pub fn is_prompting(&self) -> (open: bool)
        ensures
            open == self@.prompt.is_some(),
    {
        self.prompt.is_some()
    }

    /// How many more requests to quit are refused while the document has
    /// unsaved changes.
    pub fn quit_times(&self) -> (left: u8)
        ensures
            left == self@.quit_times,
    {
        self.quit_times
    }

    /// Lets the window follow the cursor: see [`scrolled_axis`].
    pub fn scroll(&mut self)
        ensures
            final(self)@ == old(self)@.scrolled(),
    {
        let cursor = self.cursor_position;
        let size = self.terminal.size();
        let x = scroll_axis(self.offset.x, cursor.x, size.width);
        let y = scroll_axis(self.offset.y, cursor.y, size.height);
        self.offset = Position { x, y };
    }

    fn line_length(&self, y: usize) -> (len: usize)
        ensures
            len == crate::document::line_len(self@.document.lines, y as int),
    {
        match self.document.line_at(y) {
            Some(row) => row.length(),
            None => 0,
        }
    }

    /// Moves the cursor on the key `key`: see [`crate::model::moved`].
    pub fn move_cursor(&mut self, key: Key)
        ensures
            final(self)@ == old(self)@.navigated(key),
    {
        let terminal_height = self.terminal.size().height as usize;
        let mut x = self.cursor_position.x;
        let mut y = self.cursor_position.y;
        let height = self.document.line_count();
        let mut width = self.line_length(y);
        match key {
            Key::Up => {
                if y > 0 {
                    y = y - 1;
                }
            },
            Key::Down => {
                if y < height {
                    y = y + 1;
                } else {
                    y = height;
                }
            },
            Key::Left => {
                if x > 0 {
                    x = x - 1;
                } else if y > 0 {
                    y = y - 1;
                    x = self.line_length(y);
                }
            },
            Key::Right => {
                if x < width {
                    x = x + 1;
                } else if y < height {
                    y = y + 1;
                    x = 0;
                }
            },
            Key::PageUp => {
                y = if y > terminal_height {
                    y - terminal_height
                } else {
                    0
                };
            },
            Key::PageDown => {
                y = if y < height && height - y > terminal_height {
                    y + terminal_height
                } else {
                    height
                };
            },
            Key::Home => {
                x = 0;
            },
            Key::End => {
                x = width;
            },
            _ => {},
        }
        width = self.line_length(y);
        if x > width {
            x = width;
        }
        self.cursor_position = Position { x, y };
    }

    fn show_prompt(&mut self, input: Vec<char>)
        ensures
            final(self)@ == old(self)@.prompting(input@),
    {
        let mut shown = chars_of("Save as: ");
        push_all(&mut shown, &input);
        self.status_message = StatusMessage::from(string_of(&shown));
        self.prompt = Some(input);
    }

    fn abort_prompt(&mut self)
        ensures
            final(self)@ == old(self)@.prompt_aborted(),
    {
        self.prompt = None;
        self.status_message = StatusMessage::from("Save aborted.".to_owned());
    }

    fn write_action(&self) -> (action: Action)
        requires
            self@.document.file_name.is_some(),
        ensures
            action@ == Some(
                WriteView {
                    file_name: self@.document.file_name.unwrap(),
                    contents: crate::document::joined(self@.document.lines),
                },
            ),
    {
        let contents = self.document.contents();
        match self.document.file_name() {
            Some(name) => Action::Write { file_name: name.clone(), contents },
            None => Action::Redraw,
        }
    }

    fn submit_prompt(&mut self, input: Vec<char>) -> (action: Action)
        ensures
            final(self)@ == old(self)@.prompt_submitted(input@),
            action@ == if input@.len() > 0 {
                Some(
                    WriteView {
                        file_name: input@,
                        contents: crate::document::joined(old(self)@.document.lines),
                    },
                )
            } else {
                None
            },
    {
        if input.len() == 0 {
            self.abort_prompt();
            Action::Redraw
        } else {
            self.prompt = None;
            self.status_message = StatusMessage::from(String::new());
            self.document.set_file_name(string_of(&input));
            self.write_action()
        }
    }

    /// Takes a key press at the prompt for a file name: see
    /// [`EditorView::prompted`] and [`EditorView::write_request`]. While the
    /// prompt is not open, nothing happens.
    pub fn prompt(&mut self, press: KeyPress) -> (action: Action)
        ensures
            old(self)@.prompt.is_some() ==> final(self)@ == old(self)@.prompted(
                old(self)@.prompt.unwrap(),
                press,
            ) && action@ == old(self)@.write_request(press),
            old(self)@.prompt.is_none() ==> final(self)@ == old(self)@ && action@.is_none(),
    {
        let mut input = match &self.prompt {
            Some(input) => input.clone(),
            None => {
                return Action::Redraw;
            },
        };
        match press.modifiers {
            Modifiers::Plain => {},
            _ => {
                self.show_prompt(input);
                return Action::Redraw;
            },
        }
        match press.key {
            Key::Backspace => {
                if input.len() > 0 {
                    input.pop();
                }
                self.show_prompt(input);
                Action::Redraw
            },
            Key::Enter => self.submit_prompt(input),
            Key::Esc => {
                self.abort_prompt();
                Action::Redraw
            },
            Key::Char(c) => {
                if c == '\n' {
                    self.submit_prompt(input)
                } else {
                    if !control_char(c) {
                        input.push(c);
                    }
                    self.show_prompt(input);
                    Action::Redraw
                }
            },
            _ => {
                self.show_prompt(input);
                Action::Redraw
            },
        }
    }

    /// Starts a save: see [`EditorView::save_started`]. With a file name
    /// the document's text is handed out to be written to that file.
    pub fn save(&mut self) -> (action: Action)
        ensures
            final(self)@ == old(self)@.save_started(),
            action@ == if old(self)@.document.file_name.is_some() {
                Some(
                    WriteView {
                        file_name: old(self)@.document.file_name.unwrap(),
                        contents: crate::document::joined(old(self)@.document.lines),
                    },
                )
            } else {
                None
            },
    {
        if self.document.file_name().is_none() {
            self.show_prompt(Vec::new());
            Action::Redraw
        } else {
            self.write_action()
        }
    }

    /// Ends a save: see [`EditorView::save_finished`]. `written` says
    /// whether the text that was handed out reached the file.
    pub fn finish_save(&mut self, written: bool)
        ensures
            final(self)@ == old(self)@.save_finished(written),
    {
        if self.document.save(written).is_ok() {
            self.status_message = StatusMessage::from("File saved successfully.".to_owned());
        } else {
            self.status_message = StatusMessage::from("Error writing file!".to_owned());
        }
    }

    fn warn(&mut self)
        requires
            old(self)@.quit_times > 0,
        ensures
            final(self)@ == old(self)@.warned(),
    {
        let mut warning = chars_of("WARNING! File has unsaved changes. Press Ctrl-Q ");
        push_decimal(&mut warning, self.quit_times as usize);
        push_str(&mut warning, " more times to quit.");
        self.status_message = StatusMessage::from(string_of(&warning));
        self.quit_times = self.quit_times - 1;
    }

    /// Takes a key press: see [`EditorView::step`] for what it does to the
    /// editor and [`EditorView::write_request`] for what it asks to be
    /// written.
    pub fn process_keypress(&mut self, press: KeyPress) -> (action: Action)
        ensures
            final(self)@ == old(self)@.step(press),
            action@ == old(self)@.write_request(press),
    {
        if self.prompt.is_some() {
            return self.prompt(press);
        }
        let given = press.command();
        match given {
            Command::Quit => {
                if self.quit_times > 0 && self.document.is_dirty() {
                    self.warn();
                    return Action::Redraw;
                }
            },
            _ => {},
        }
        if self.quit_times < QUIT_TIMES {
            self.quit_times = QUIT_TIMES;
            self.status_message = StatusMessage::from(String::new());
        }
        let mut action = Action::Redraw;
        match given {
            Command::Quit => {
                self.should_quit = true;
            },
            Command::Save => {
                action = self.save();
            },
            Command::Type(c) => {
                let at = self.cursor_position;
                self.document.insert_char(&at, c);
                self.move_cursor(Key::Right);
            },
            Command::DeleteForward => {
                let at = self.cursor_position;
                self.document.delete_char(&at);
            },
            Command::Backspace => {
                if self.cursor_position.x > 0 || self.cursor_position.y > 0 {
                    self.move_cursor(Key::Left);
                    let at = self.cursor_position;
                    self.document.delete_char(&at);
                }
            },
            Command::Navigate(key) => {
                self.move_cursor(key);
            },
            Command::Ignore => {},
        }
        self.scroll();
        action
    }

    /// Takes one event.
    pub fn handle(&mut self, event: Event) -> (action: Action)
        ensures
            final(self)@ == old(self)@.handled(event),
            action@ == match event {
                Event::Key(press) => old(self)@.write_request(press),
                Event::Written(_) => None,
            },
    {
        match event {
            Event::Key(press) => self.process_keypress(press),
            Event::Written(written) => {
                self.finish_save(written);
                Action::Redraw
            },
        }
    }

    /// Runs a session on `events`: takes them in turn until the session is
    /// over or none is left. Returns how many were taken.
    pub fn run(&mut self, events: &Vec<Event>) -> (taken: usize)
        ensures
            final(self)@ == old(self)@.after(events@),
            taken == old(self)@.taken(events@),
    {
        let mut i: usize = 0;
        proof {
            assert(events@.skip(0) == events@);
        }
        while i < events.len() && !self.should_quit
            invariant
                i <= events.len(),
                self@.after(events@.skip(i as int)) == old(self)@.after(events@),
                i + self@.taken(events@.skip(i as int)) == old(self)@.taken(events@),
            decreases events.len() - i,
        {
            proof {
                assert(events@.skip(i as int).skip(1) == events@.skip(i + 1));
            }
            self.handle(events[i]);
            i += 1;
        }
        i
    }

    /// What a row of the screen shows of the line `row`: see [`drawn_row`].
    pub fn draw_row(&self, row: &Row) -> (shown: String)
        ensures
            shown@ == drawn_row(row@, self@.offset.x, self@.size.width),
    {
        let width = self.terminal.size().width as usize;
        let start = self.offset.x;
        let end = match start.checked_add(width) {
            Some(end) => end,
            None => row.rendered_length(),
        };
        row.render(start, end)
    }

    /// The row that greets: see [`welcome_line`].
    pub fn draw_welcome_message(&self) -> (shown: String)
        ensures
            shown@ == welcome_line(self@.size.width as int),
    {
        let mut message = chars_of("RTT - Version: ");
        push_str(&mut message, VERSION);
        let width = self.terminal.size().width as usize;
        let len = message.len();
        let padding = width.saturating_sub(len) / 2;
        let mut line = chars_of("~");
        push_spaces(&mut line, padding.saturating_sub(1));
        push_all(&mut line, &message);
        truncate_chars(&mut line, width);
        string_of(&line)
    }

    /// The rows of text, from the top of the screen down: see [`text_row`].
    pub fn draw_rows(&self) -> (rows: Vec<String>)
        ensures
            rows@.len() == self@.size.height,
            forall|r: int| 0 <= r < rows@.len() ==> (#[trigger] rows@[r])@ == text_row(self@, r),
    {
        let height = self.terminal.size().height;
        let count = self.document.line_count();
        let mut rows: Vec<String> = Vec::new();
        let mut terminal_row: u16 = 0;
        while terminal_row < height
            invariant
                terminal_row <= height,
                height == self@.size.height,
                count == self@.document.lines.len(),
                rows@.len() == terminal_row,
                forall|r: int| 0 <= r < rows@.len() ==> (#[trigger] rows@[r])@ == text_row(self@, r),
            decreases height - terminal_row,
        {
            let line = match self.offset.y.checked_add(terminal_row as usize) {
                Some(y) => self.document.line_at(y),
                None => None,
            };
            let shown = match line {
                Some(row) => self.draw_row(row),
                None => {
                    if count == 0 && terminal_row == height / 3 {
                        self.draw_welcome_message()
                    } else {
                        "~".to_owned()
                    }
                },
            };
            rows.push(shown);
            terminal_row += 1;
        }
        rows
    }

    /// The status bar: see [`status_bar`].
    pub fn draw_status_bar(&self) -> (shown: String)
        ensures
            shown@ == status_bar(self@),
    {
        let width = self.terminal.size().width as usize;
        let mut status: Vec<char> = Vec::new();
        match self.document.file_name() {
            Some(name) => {
                let mut file_name = chars_of(name.as_str());
                truncate_chars(&mut file_name, NAME_WIDTH);
                push_all(&mut status, &file_name);
            },
            None => {
                push_str(&mut status, "[No Name]");
            },
        }
        push_str(&mut status, " - ");
        push_decimal(&mut status, self.document.line_count());
        push_str(&mut status, " lines");
        if self.document.is_dirty() {
            push_str(&mut status, " (modified)");
        }
        let mut line_indicator: Vec<char> = Vec::new();
        push_decimal(&mut line_indicator, self.cursor_position.y.saturating_add(1));
        push_str(&mut line_indicator, "/");
        push_decimal(&mut line_indicator, self.document.line_count());
        let gap = width.saturating_sub(status.len()).saturating_sub(line_indicator.len());
        push_spaces(&mut status, gap);
        push_all(&mut status, &line_indicator);
        truncate_chars(&mut status, width);
        string_of(&status)
    }

    /// The message bar: the status message, cut down to the width of the
    /// screen, or nothing once the message is old. See [`message_bar`].
    pub fn draw_message_bar(&self) -> (shown: String)
        ensures
            exists|age: u64| shown@ == message_bar(self@.status, age, self@.size.width as int),
    {
        let width = self.terminal.size().width as usize;
        let shown = self.status_message.shown(width);
        proof {
            let age = choose|age: u64| shown@ == message_bar(self.status_message@, age, width as int);
            assert(shown@ == message_bar(self@.status, age, self@.size.width as int));
        }
        shown
    }

    /// Draws the screen: see [`Frame::shows`].
    pub fn refresh_screen(&self) -> (frame: Frame)
        ensures
            frame.shows(self@),
    {
        if self.should_quit {
            Frame::Goodbye { farewell: "Goodbye. ".to_owned() }
        } else {
            let rows = self.draw_rows();
            let status_bar = self.draw_status_bar();
            let message_bar = self.draw_message_bar();
            let cursor = Position {
                x: self.cursor_position.x.saturating_sub(self.offset.x),
                y: self.cursor_position.y.saturating_sub(self.offset.y),
            };
            Frame::Editing { rows, status_bar, message_bar, cursor }
        }
    }
}

} // verus!
