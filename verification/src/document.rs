//! The lines of one file, its name and whether it has unsaved changes.

use vstd::prelude::*;
use crate::position::Position;
use crate::row::{clamped, head, tail, Row};
use crate::text::{chars_of, push_all, string_of, text_of};

verus! {

/// What a document is: its lines from top to bottom, the name of its file
/// if it has one, and whether it was changed since it was last saved.
pub struct DocumentView {
    pub lines: Seq<Seq<char>>,
    pub file_name: Option<Seq<char>>,
    pub dirty: bool,
}

/// The length of line `y`, and 0 where there is no such line.
pub open spec fn line_len(lines: Seq<Seq<char>>, y: int) -> int {
    if 0 <= y < lines.len() {
        lines[y].len() as int
    } else {
        0
    }
}

/// The lines after `c` was typed at column `x` of line `y`.
///
/// One line behind the last, a new line that holds only `c` is added.
/// In a line of the document a newline cuts the line at the column, and the
/// cut-off part becomes the next line; any other character goes into the
/// line, at its end where the column lies behind it. Further down nothing
/// changes.
pub open spec fn inserted(lines: Seq<Seq<char>>, x: int, y: int, c: char) -> Seq<Seq<char>> {
    if y == lines.len() {
        lines.push(seq![c])
    } else if 0 <= y < lines.len() {
        if c == '\n' {
            lines.update(y, head(lines[y], x)).insert(y + 1, tail(lines[y], x))
        } else {
            lines.update(y, lines[y].insert(clamped(x, lines[y].len() as int), c))
        }
    } else {
        lines
    }
}

/// Whether a deletion at column `x` of line `y` joins line `y` with the
/// line below it.
pub open spec fn joins(lines: Seq<Seq<char>>, x: int, y: int) -> bool {
    0 <= y && y + 1 < lines.len() && x == lines[y].len()
}

/// Whether a deletion at column `x` of line `y` takes out a character.
pub open spec fn removes(lines: Seq<Seq<char>>, x: int, y: int) -> bool {
    0 <= y < lines.len() && 0 <= x < lines[y].len()
}

/// The lines after a deletion at column `x` of line `y`.
///
/// At the end of a line that has a line below it, the two become one.
/// Inside a line the character at the column goes. Anywhere else nothing
/// changes.
pub open spec fn deleted(lines: Seq<Seq<char>>, x: int, y: int) -> Seq<Seq<char>> {
    if joins(lines, x, y) {
        lines.update(y, lines[y] + lines[y + 1]).remove(y + 1)
    } else if removes(lines, x, y) {
        lines.update(y, lines[y].remove(x))
    } else {
        lines
    }
}

/// The index of the first newline in `text`, or the length of `text` where
/// it holds none.
pub open spec fn line_end(text: Seq<char>) -> int
    decreases text.len(),
{
    if text.len() == 0 || text[0] == '\n' {
        0
    } else {
        1 + line_end(text.skip(1))
    }
}

/// `line` without the carriage return at its end, if it has one.
pub open spec fn without_cr(line: Seq<char>) -> Seq<char> {
    if line.len() > 0 && line.last() == '\r' {
        line.drop_last()
    } else {
        line
    }
}

/// The lines of a text. A line ends at a newline, or at a carriage return
/// directly followed by one; neither belongs to the line. What follows the
/// last newline is a line only if it is not empty.
pub open spec fn split_lines(text: Seq<char>) -> Seq<Seq<char>>
    decreases text.len(),
{
    let end = line_end(text);
    if text.len() == 0 {
        Seq::empty()
    } else if 0 <= end < text.len() {
        seq![without_cr(text.take(end))] + split_lines(text.skip(end + 1))
    } else {
        seq![text]
    }
}

/// The text of a file that holds `lines`: the lines with one newline
/// between each two of them.
pub open spec fn joined(lines: Seq<Seq<char>>) -> Seq<char>
    decreases lines.len(),
{
    if lines.len() == 0 {
        Seq::empty()
    } else if lines.len() == 1 {
        lines[0]
    } else {
        joined(lines.drop_last()) + seq!['\n'] + lines.last()
    }
}

/// Why a save did not take place.
#[derive(Clone, Copy, Debug, PartialEq, Eq, Structural)]
pub enum SaveError {
    /// The document has no file name yet.
    NoFileName,
    /// The file could not be written.
    WriteFailed,
}

/// The lines of one file.
pub struct Document {
    rows: Vec<Row>,
    file_name: Option<String>,
    dirty: bool,
}

impl View for Document {
    type V = DocumentView;

    closed spec fn view(&self) -> DocumentView {
        DocumentView {
            lines: lines_of(self.rows@),
            file_name: text_of(self.file_name),
            dirty: self.dirty,
        }
    }
}

spec fn lines_of(rows: Seq<Row>) -> Seq<Seq<char>> {
    Seq::new(rows.len(), |i: int| rows[i]@)
}

/// The first line of a text ends at `k` if a newline stands at `k`, or the
/// text ends there, and no newline stands before `k`.
pub proof fn line_end_found(text: Seq<char>, k: int)
    requires
        0 <= k <= text.len(),
        forall|j: int| 0 <= j < k ==> text[j] != '\n',
        k < text.len() ==> text[k] == '\n',
    ensures
        line_end(text) == k,
    decreases k,
{
    if k > 0 {
        let rest = text.skip(1);
        line_end_found(rest, k - 1);
    }
}

fn copy_range(chars: &Vec<char>, lo: usize, hi: usize) -> (part: Vec<char>)
    requires
        lo <= hi <= chars.len(),
    ensures
        part@ == chars@.subrange(lo as int, hi as int),
{
    let mut part: Vec<char> = Vec::new();
    let mut i: usize = lo;
    while i < hi
        invariant
            lo <= i <= hi <= chars.len(),
            part@ == chars@.subrange(lo as int, i as int),
        decreases hi - i,
    {
        part.push(chars[i]);
        i += 1;
    }
    part
}

impl Default for Document {
    /// The empty document: no lines, no file name, nothing to save.
    fn default() -> (document: Document)
        ensures
            document@ == (DocumentView { lines: Seq::empty(), file_name: None, dirty: false }),
    {
        let document = Document { rows: Vec::new(), file_name: None, dirty: false };
        assert(document@.lines =~= Seq::empty());
        document
    }
}

impl Document {
    /// The document of the file `file_name`, which holds `text`.
    pub fn open(file_name: &str, text: &str) -> (document: Document)
        ensures
            document@ == (DocumentView {
                lines: split_lines(text@),
                file_name: Some(file_name@),
                dirty: false,
            }),
    {
        let chars = chars_of(text);
        let mut rows: Vec<Row> = Vec::new();
        let mut start: usize = 0;
        let mut i: usize = 0;
        proof {
            assert(chars@.skip(0) == chars@);
        }
        while i < chars.len()
            invariant
                start <= i <= chars.len(),
                forall|j: int| start <= j < i ==> chars@[j] != '\n',
                lines_of(rows@) + split_lines(chars@.skip(start as int)) == split_lines(chars@),
            decreases chars.len() - i,
        {
            if chars[i] == '\n' {
                let mut end: usize = i;
                if end > start && chars[end - 1] == '\r' {
                    end = end - 1;
                }
                let row = Row::from_chars(copy_range(&chars, start, end));
                proof {
                    let rest = chars@.skip(start as int);
                    line_end_found(rest, i - start);
                    assert(row@ == without_cr(rest.take(i - start)));
                    assert(rest.skip(i - start + 1) == chars@.skip(i + 1));
                    assert(lines_of(rows@).push(row@) + split_lines(chars@.skip(i + 1))
                        == lines_of(rows@) + split_lines(rest));
                }
                rows.push(row);
                start = i + 1;
            }
            i += 1;
        }
        if start < chars.len() {
            let row = Row::from_chars(copy_range(&chars, start, chars.len()));
            proof {
                let rest = chars@.skip(start as int);
                line_end_found(rest, chars.len() - start);
                assert(lines_of(rows@.push(row)) == lines_of(rows@).push(row@));
                assert(lines_of(rows@).push(row@) == lines_of(rows@) + split_lines(rest));
            }
            rows.push(row);
        }
        let name = file_name.to_owned();
        Document { rows, file_name: Some(name), dirty: false }
    }

    /// The number of lines.
    pub fn line_count(&self) -> (count: usize)
        ensures
            count == self@.lines.len(),
    {
        self.rows.len()
    }

    /// Whether the document has no line at all.
    pub fn is_empty(&self) -> (empty: bool)
        ensures
            empty == (self@.lines.len() == 0),
    {
        self.rows.len() == 0
    }

    /// Line `index`, or nothing where the document ends before it.
    pub fn line_at(&self, index: usize) -> (line: Option<&Row>)
        ensures
            match line {
                Some(row) => index < self@.lines.len() && row@ == self@.lines[index as int],
                None => index >= self@.lines.len(),
            },
    {
        if index < self.rows.len() {
            Some(&self.rows[index])
        } else {
            None
        }
    }

    /// Whether the document was changed since it was last saved.
    pub fn is_dirty(&self) -> (dirty: bool)
        ensures
            dirty == self@.dirty,
    {
        self.dirty
    }

    /// The name of the document's file, if it has one.
    pub fn file_name(&self) -> (name: Option<&String>)
        ensures
            match name {
                Some(name) => self@.file_name == Some(name@),
                None => self@.file_name.is_none(),
            },
    {
        self.file_name.as_ref()
    }

    /// Names the file that the document is saved to from now on.
    pub fn set_file_name(&mut self, name: String)
        ensures
            final(self)@ == (DocumentView { file_name: Some(name@), ..old(self)@ }),
    {
        self.file_name = Some(name);
    }

    /// Types `c` at the place `at`: see [`inserted`]. The document counts
    /// as changed afterwards, whatever `at` is.
    pub fn insert_char(&mut self, at: &Position, c: char)
        ensures
            final(self)@ == (DocumentView {
                lines: inserted(old(self)@.lines, at.x as int, at.y as int, c),
                dirty: true,
                ..old(self)@
            }),
    {
        self.dirty = true;
        if at.y == self.rows.len() {
            let mut row = Row::from_chars(Vec::new());
            row.insert(0, c);
            assert(row@ =~= seq![c]);
            self.rows.push(row);
            assert(lines_of(self.rows@) =~= old(self)@.lines.push(seq![c]));
        } else if at.y < self.rows.len() {
            if c == '\n' {
                let rest = self.rows[at.y].split(at.x);
                let ghost cut = self.rows@;
                self.rows.insert(at.y + 1, rest);
                proof {
                    assert(lines_of(cut) =~= old(self)@.lines.update(
                        at.y as int,
                        head(old(self)@.lines[at.y as int], at.x as int),
                    ));
                    assert(lines_of(self.rows@) =~= lines_of(cut).insert(at.y + 1, rest@));
                }
            } else {
                self.rows[at.y].insert(at.x, c);
                proof {
                    let lines = old(self)@.lines;
                    let line = lines[at.y as int];
                    assert(lines_of(self.rows@) =~= lines.update(
                        at.y as int,
                        line.insert(clamped(at.x as int, line.len() as int), c),
                    ));
                }
            }
        }
    }

    /// Deletes at the place `at`: see [`deleted`]. The document counts as
    /// changed afterwards if a character went or two lines were joined.
    pub fn delete_char(&mut self, at: &Position)
        ensures
            final(self)@ == (DocumentView {
                lines: deleted(old(self)@.lines, at.x as int, at.y as int),
                dirty: old(self)@.dirty || joins(old(self)@.lines, at.x as int, at.y as int)
                    || removes(old(self)@.lines, at.x as int, at.y as int),
                ..old(self)@
            }),
    {
        let count = self.rows.len();
        if at.y >= count {
            return ;
        }
        let len = self.rows[at.y].length();
        if at.x == len && at.y + 1 < count {
            let next = self.rows.remove(at.y + 1);
            let ghost short = self.rows@;
            self.rows[at.y].append(&next);
            self.dirty = true;
            proof {
                let lines = old(self)@.lines;
                assert(lines_of(self.rows@) =~= lines_of(short).update(
                    at.y as int,
                    lines[at.y as int] + lines[at.y + 1],
                ));
            }
            assert(self@.lines =~= deleted(old(self)@.lines, at.x as int, at.y as int));
        } else if at.x < len {
            self.rows[at.y].delete(at.x);
            self.dirty = true;
            assert(self@.lines =~= deleted(old(self)@.lines, at.x as int, at.y as int));
        }
    }

    /// The text that a save writes: see [`joined`].
    pub fn contents(&self) -> (text: String)
        ensures
            text@ == joined(self@.lines),
    {
        let mut out: Vec<char> = Vec::new();
        let mut i: usize = 0;
        while i < self.rows.len()
            invariant
                i <= self.rows.len(),
                out@ == joined(self@.lines.take(i as int)),
            decreases self.rows.len() - i,
        {
            proof {
                let lines = self@.lines;
                assert(lines.take(i + 1).drop_last() == lines.take(i as int));
            }
            if i > 0 {
                out.push('\n');
            }
            push_all(&mut out, self.rows[i].chars());
            i += 1;
        }
        proof {
            assert(self@.lines.take(self.rows.len() as int) == self@.lines);
        }
        string_of(&out)
    }

    /// Records how the writing of [`Document::contents`] to the document's
    /// file went. Without a file name nothing can have been written. After a
    /// write that failed the document is as it was. After one that went
    /// through, the document has no unsaved changes.
    pub fn save(&mut self, written: bool) -> (outcome: Result<(), SaveError>)
        ensures
            old(self)@.file_name.is_none() ==> outcome == Err::<(), SaveError>(SaveError::NoFileName)
                && final(self)@ == old(self)@,
            old(self)@.file_name.is_some() && !written ==> outcome == Err::<(), SaveError>(
                SaveError::WriteFailed,
            ) && final(self)@ == old(self)@,
            old(self)@.file_name.is_some() && written ==> outcome.is_ok() && final(self)@ == (
            DocumentView { dirty: false, ..old(self)@ }),
    {
        if self.file_name.is_none() {
            Err(SaveError::NoFileName)
        } else if !written {
            Err(SaveError::WriteFailed)
        } else {
            self.dirty = false;
            Ok(())
        }
    }
}

} // verus!
