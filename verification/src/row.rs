//! One line of text and its tab-expanded form.

use vstd::prelude::*;
use crate::text::{chars_of, push_spaces, spaces, string_of};

verus! {

/// Tab stops stand every `TAB_STOP` columns.
pub const TAB_STOP: usize = 8;

/// What a line shows on the screen: each tab is replaced by spaces up to
/// the next tab stop (at least one), every other character stands for
/// itself.
pub open spec fn expand_tabs(line: Seq<char>) -> Seq<char>
    decreases line.len(),
{
    if line.len() == 0 {
        Seq::empty()
    } else {
        let before = expand_tabs(line.drop_last());
        if line.last() == '\t' {
            before + spaces((TAB_STOP - before.len() % (TAB_STOP as nat)) as nat)
        } else {
            before.push(line.last())
        }
    }
}

/// The part of `s` between the columns `start` (inclusive) and `end`
/// (exclusive), both cut down to what `s` holds: empty where `start` lies
/// at or behind the end of `s`, or at or behind `end`.
pub open spec fn window<T>(s: Seq<T>, start: int, end: int) -> Seq<T> {
    let hi = if end < 0 {
        0
    } else if end > s.len() {
        s.len() as int
    } else {
        end
    };
    let lo = if start < 0 {
        0
    } else if start > hi {
        hi
    } else {
        start
    };
    s.subrange(lo, hi)
}

/// The column at which an edit at `at` takes place in a line of `len`
/// characters: `at` itself, or the end of the line where `at` lies behind it.
pub open spec fn clamped(at: int, len: int) -> int {
    if at > len {
        len
    } else {
        at
    }
}

/// What a line keeps when it is cut at column `at`.
pub open spec fn head(line: Seq<char>, at: int) -> Seq<char> {
    line.take(clamped(at, line.len() as int))
}

/// What is cut off a line at column `at`.
pub open spec fn tail(line: Seq<char>, at: int) -> Seq<char> {
    line.skip(clamped(at, line.len() as int))
}

/// A line of text: its characters, and beside them the form in which the
/// line is drawn.
pub struct Row {
    chars: Vec<char>,
    rendered: Vec<char>,
}

impl View for Row {
    type V = Seq<char>;

    closed spec fn view(&self) -> Seq<char> {
        self.chars@
    }
}

impl Row {
    #[verifier::type_invariant]
    spec fn rendered_is_current(self) -> bool {
        self.rendered@ == expand_tabs(self.chars@)
    }

    /// The line that holds `chars`.
    pub fn from_chars(chars: Vec<char>) -> (row: Row)
        ensures
            row@ == chars@,
    {
        let mut rendered: Vec<char> = Vec::new();
        let mut i: usize = 0;
        while i < chars.len()
            invariant
                i <= chars.len(),
                rendered@ == expand_tabs(chars@.take(i as int)),
            decreases chars.len() - i,
        {
            proof {
                assert(chars@.take(i + 1).drop_last() == chars@.take(i as int));
            }
            if chars[i] == '\t' {
                let fill = TAB_STOP - rendered.len() % TAB_STOP;
                push_spaces(&mut rendered, fill);
            } else {
                rendered.push(chars[i]);
            }
            i += 1;
        }
        proof {
            assert(chars@.take(chars.len() as int) == chars@);
        }
        Row { chars, rendered }
    }

    /// The line that holds the characters of `text`.
    pub fn from(text: &str) -> (row: Row)
        ensures
            row@ == text@,
    {
        Row::from_chars(chars_of(text))
    }

    /// The characters of the line.
    pub fn chars(&self) -> (chars: &Vec<char>)
        ensures
            chars@ == self@,
    {
        &self.chars
    }

    /// The characters of the line as a string.
    pub fn text(&self) -> (text: String)
        ensures
            text@ == self@,
    {
        string_of(&self.chars)
    }

    /// The number of characters in the line (tabs count as one).
    pub fn length(&self) -> (len: usize)
        ensures
            len == self@.len(),
    {
        self.chars.len()
    }

    /// The number of columns that the drawn line takes.
    pub fn rendered_length(&self) -> (len: usize)
        ensures
            len == expand_tabs(self@).len(),
    {
        proof {
            use_type_invariant(self);
        }
        self.rendered.len()
    }

    /// The part of the drawn line between the columns `start` and `end`.
    pub fn render(&self, start: usize, end: usize) -> (shown: String)
        ensures
            shown@ == window(expand_tabs(self@), start as int, end as int),
    {
        proof {
            use_type_invariant(self);
        }
        let hi = if end > self.rendered.len() {
            self.rendered.len()
        } else {
            end
        };
        let lo = if start > hi {
            hi
        } else {
            start
        };
        let mut shown = String::new();
        let mut i: usize = lo;
        while i < hi
            invariant
                lo <= i <= hi <= self.rendered.len(),
                shown@ == self.rendered@.subrange(lo as int, i as int),
            decreases hi - i,
        {
            crate::text::push_char(&mut shown, self.rendered[i]);
            i += 1;
        }
        shown
    }

    /// Empties the line and hands out the characters that it held.
    fn take_chars(&mut self) -> (chars: Vec<char>)
        ensures
            chars@ == old(self)@,
            final(self)@ == Seq::<char>::empty(),
    {
        let mut taken = Row { chars: Vec::new(), rendered: Vec::new() };
        core::mem::swap(self, &mut taken);
        taken.chars
    }

    /// Puts `c` in front of the character at column `at`, or at the end of
    /// the line where `at` lies behind it.
    pub fn insert(&mut self, at: usize, c: char)
        ensures
            final(self)@ == old(self)@.insert(clamped(at as int, old(self)@.len() as int), c),
    {
        let mut chars = self.take_chars();
        let at = if at > chars.len() {
            chars.len()
        } else {
            at
        };
        chars.insert(at, c);
        *self = Row::from_chars(chars);
    }

    /// Takes out the character at column `at`; leaves the line as it is
    /// where it has no such column.
    pub fn delete(&mut self, at: usize)
        ensures
            final(self)@ == if at < old(self)@.len() {
                old(self)@.remove(at as int)
            } else {
                old(self)@
            },
    {
        if at < self.chars.len() {
            let mut chars = self.take_chars();
            chars.remove(at);
            *self = Row::from_chars(chars);
        }
    }

    /// Cuts the line at column `at`: the line keeps what stands before the
    /// column, and what stands from it on is returned as a line of its own.
    pub fn split(&mut self, at: usize) -> (rest: Row)
        ensures
            final(self)@ == head(old(self)@, at as int),
            rest@ == tail(old(self)@, at as int),
    {
        let mut chars = self.take_chars();
        let at = if at > chars.len() {
            chars.len()
        } else {
            at
        };
        let rest = chars.split_off(at);
        *self = Row::from_chars(chars);
        Row::from_chars(rest)
    }

    /// Puts the characters of `other` behind those of the line.
    pub fn append(&mut self, other: &Row)
        ensures
            final(self)@ == old(self)@ + other@,
    {
        let mut chars = self.take_chars();
        crate::text::push_all(&mut chars, &other.chars);
        *self = Row::from_chars(chars);
    }
}

} // verus!
