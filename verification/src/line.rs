//! One row of text.

use std::ops::Range;
use vstd::prelude::*;
use vstd::string::*;

verus! {

/// The part of `text` that lies in the half-open range `start..end`, with
/// `end` first clamped to the length of `text`. A range that starts at or
/// beyond its clamped end selects nothing.
pub open spec fn clamped_subrange(text: Seq<char>, start: int, end: int) -> Seq<char> {
    let stop = if end <= text.len() {
        end
    } else {
        text.len() as int
    };
    if 0 <= start < stop {
        text.subrange(start, stop)
    } else {
        Seq::empty()
    }
}

/// A row of text. It never changes after it was made. Positions in it count
/// characters, not bytes.
pub struct Line {
    string: String,
}

impl View for Line {
    type V = Seq<char>;

    closed spec fn view(&self) -> Seq<char> {
        self.string@
    }
}

impl Line {
    /// Stores `line_str` as it is.
    pub fn from(line_str: &str) -> (line: Line)
        ensures
            line@ == line_str@,
    {
        Line { string: String::from_str(line_str) }
    }

    /// The number of characters in the line.
    pub fn len(&self) -> (n: usize)
        ensures
            n == self@.len(),
    {
        self.string.as_str().unicode_len()
    }

    /// The characters in `range`, counted from zero. The end of the range is
    /// clamped to the length of the line, and a range that then holds nothing
    /// yields the empty string: no range is an error.
    pub fn get(&self, range: Range<usize>) -> (text: String)
        ensures
            text@ == clamped_subrange(self@, range.start as int, range.end as int),
            text@.len() == if range.start < range.end && range.start < self@.len() {
                (if range.end <= self@.len() {
                    range.end as int
                } else {
                    self@.len() as int
                }) - range.start
            } else {
                0
            },
    {
        let len = self.len();
        let start = range.start;
        let end = if range.end <= len {
            range.end
        } else {
            len
        };
        if start < end {
            String::from_str(self.string.as_str().substring_char(start, end))
        } else {
            String::new()
        }
    }
}

} // verus!
