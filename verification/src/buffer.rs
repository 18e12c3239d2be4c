//! The document: rows of text in document order.

use crate::line::Line;
use vstd::prelude::*;
use vstd::string::*;

verus! {

/// `String::push` of the standard library: the string afterwards is the
/// string before with `ch` appended at its end, and nothing else changes.
pub assume_specification[ String::push ](s: &mut String, ch: char)
    ensures
        final(s)@ == old(s)@.push(ch),
;

/// Why a document could not be had from its source.
#[derive(Clone, Copy, Debug, PartialEq, Eq, Structural)]
pub enum LoadError {
    /// There is no such source.
    NotFound,
    /// The source is there and cannot be read as text.
    Unreadable,
}

/// The number of characters of `text` before its first line feed, and the
/// length of `text` where it holds none.
pub open spec fn first_line_len(text: Seq<char>) -> nat
    decreases text.len(),
{
    if text.len() == 0 || text[0] == '\n' {
        0
    } else {
        1 + first_line_len(text.skip(1))
    }
}

/// `line` without the carriage return at its end, if it ends in one.
pub open spec fn without_carriage_return(line: Seq<char>) -> Seq<char> {
    if line.len() > 0 && line.last() == '\r' {
        line.drop_last()
    } else {
        line
    }
}

/// The lines of `text`. A line ends at a line feed, or at a carriage return
/// directly followed by a line feed; neither is part of the line. What
/// follows the last line feed is a line of its own, kept as it is, unless
/// nothing follows: a text that ends in a line feed has no empty last line.
pub open spec fn split_lines(text: Seq<char>) -> Seq<Seq<char>>
    decreases text.len(),
{
    if text.len() == 0 {
        Seq::empty()
    } else {
        let end = first_line_len(text);
        if end >= text.len() {
            seq![text]
        } else {
            seq![without_carriage_return(text.take(end as int))] + split_lines(
                text.skip(end as int + 1),
            )
        }
    }
}

/// The first line of a text ends within the text, at the first line feed
/// if there is one.
pub proof fn lemma_first_line_len_bound(text: Seq<char>)
    ensures
        first_line_len(text) <= text.len(),
        first_line_len(text) < text.len() ==> text[first_line_len(text) as int] == '\n',
        forall|i: int| 0 <= i < first_line_len(text) ==> text[i] != '\n',
    decreases text.len(),
{
    if text.len() > 0 && text[0] != '\n' {
        lemma_first_line_len_bound(text.skip(1));
        assert forall|i: int| 0 <= i < first_line_len(text) implies text[i] != '\n' by {
            if i > 0 {
                assert(text[i] == text.skip(1)[i - 1]);
            }
        }
    }
}

/// A text that holds no line feed in its first `n` characters, and that
/// either ends there or goes on with a line feed, has a first line of
/// exactly `n` characters.
pub proof fn lemma_first_line_len_is(text: Seq<char>, n: int)
    requires
        0 <= n <= text.len(),
        forall|i: int| 0 <= i < n ==> text[i] != '\n',
        n < text.len() ==> text[n] == '\n',
    ensures
        first_line_len(text) == n,
{
    lemma_first_line_len_bound(text);
    let m = first_line_len(text) as int;
    if m < n {
        assert(text[m] == '\n');
    } else if m > n {
        assert(text[n] != '\n');
    }
}

/// The length of row `y` of `lines`, and zero where there is no such row.
pub open spec fn row_len(lines: Seq<Seq<char>>, y: int) -> nat {
    if 0 <= y < lines.len() {
        lines[y].len()
    } else {
        0
    }
}

/// An ordered sequence of lines. Its view is the text of each row, first row
/// first.
pub struct Buffer {
    lines: Vec<Line>,
}

impl View for Buffer {
    type V = Seq<Seq<char>>;

    closed spec fn view(&self) -> Seq<Seq<char>> {
        self.lines@.map_values(|line: Line| line@)
    }
}

impl Default for Buffer {
    /// The buffer without any line.
    fn default() -> (buffer: Buffer)
        ensures
            buffer@ == Seq::<Seq<char>>::empty(),
    {
        Buffer { lines: Vec::new() }
    }
}

impl Buffer {
    /// The buffer that holds the lines of `text`.
    pub fn from_text(text: &str) -> (buffer: Buffer)
        ensures
            buffer@ == split_lines(text@),
    {
        let mut lines: Vec<Line> = Vec::new();
        let mut current = String::new();
        let mut pending_return = false;
        let ghost mut start: int = 0;
        proof {
            assert(text@.skip(0) =~= text@);
            assert(lines@.map_values(|line: Line| line@) + split_lines(text@) =~= split_lines(
                text@,
            ));
        }
        for c in it: text.chars()
            invariant
                it.seq() == text@,
                0 <= start <= it.index(),
                split_lines(text@) == lines@.map_values(|line: Line| line@) + split_lines(
                    text@.skip(start),
                ),
                text@.subrange(start, it.index() as int) == if pending_return {
                    current@.push('\r')
                } else {
                    current@
                },
                forall|i: int| start <= i < it.index() ==> text@[i] != '\n',
                !pending_return ==> current@.len() == 0 || current@.last() != '\r',
        {
            let ghost at: int = it.index() as int;
            let ghost rest = text@.skip(start);
            proof {
                assert(text@.subrange(start, at + 1) =~= text@.subrange(start, at).push(c));
            }
            if c == '\n' {
                let line = Line::from(current.as_str());
                proof {
                    assert forall|i: int| 0 <= i < at - start implies rest[i] != '\n' by {
                        assert(rest[i] == text@[start + i]);
                    }
                    lemma_first_line_len_is(rest, at - start);
                    assert(rest.take(at - start) =~= text@.subrange(start, at));
                    assert(rest.skip(at - start + 1) =~= text@.skip(at + 1));
                    if pending_return {
                        assert(current@.push('\r').drop_last() =~= current@);
                    }
                    assert(without_carriage_return(text@.subrange(start, at)) == line@);
                    assert(lines@.push(line).map_values(|line: Line| line@) =~= lines@.map_values(
                        |line: Line| line@,
                    ) + seq![line@]);
                    start = at + 1;
                    assert(text@.subrange(start, at + 1) =~= Seq::<char>::empty());
                }
                lines.push(line);
                current = String::new();
                pending_return = false;
            } else {
                if pending_return {
                    current.push('\r');
                }
                if c == '\r' {
                    pending_return = true;
                } else {
                    current.push(c);
                    pending_return = false;
                }
            }
        }
        if pending_return {
            current.push('\r');
        }
        let ghost rest = text@.skip(start);
        proof {
            assert(rest =~= text@.subrange(start, text@.len() as int));
            assert(rest == current@);
        }
        if current.as_str().unicode_len() > 0 {
            let line = Line::from(current.as_str());
            proof {
                assert forall|i: int| 0 <= i < rest.len() implies rest[i] != '\n' by {
                    assert(rest[i] == text@[start + i]);
                }
                lemma_first_line_len_is(rest, rest.len() as int);
                assert(lines@.push(line).map_values(|line: Line| line@) =~= lines@.map_values(
                    |line: Line| line@,
                ) + seq![line@]);
            }
            lines.push(line);
        }
        Buffer { lines }
    }

    /// The buffer for what reading a source gave: the lines of the text
    /// where the source was read, and the reader's error where it was not.
    pub fn load(source: Result<String, LoadError>) -> (result: Result<Buffer, LoadError>)
        ensures
            match source {
                Ok(text) => result is Ok && result->Ok_0@ == split_lines(text@),
                Err(error) => result == Err::<Buffer, LoadError>(error),
            },
    {
        match source {
            Ok(text) => Ok(Buffer::from_text(text.as_str())),
            Err(error) => Err(error),
        }
    }

    /// A buffer in memory has a number of lines that fits a machine word.
    pub proof fn lemma_line_count_fits(&self)
        ensures
            self@.len() <= usize::MAX,
    {
        assert(self@.len() == self.lines.len());
    }

    /// Whether the buffer holds no line at all.
    pub fn is_empty(&self) -> (empty: bool)
        ensures
            empty == (self@.len() == 0),
    {
        self.lines.len() == 0
    }

    /// The number of lines.
    pub fn line_count(&self) -> (count: usize)
        ensures
            count == self@.len(),
    {
        self.lines.len()
    }

    /// The line at row `index`, absent exactly when the buffer has no such
    /// row.
    pub fn line(&self, index: usize) -> (line: Option<&Line>)
        ensures
            line is Some <==> index < self@.len(),
            line is Some ==> line->0@ == self@[index as int],
    {
        if index < self.lines.len() {
            Some(&self.lines[index])
        } else {
            None
        }
    }

    /// The length of the line at row `index`, and zero where the buffer has
    /// no such row.
    pub fn line_len(&self, index: usize) -> (len: usize)
        ensures
            len == row_len(self@, index as int),
    {
        match self.line(index) {
            Some(line) => line.len(),
            None => 0,
        }
    }
}

} // verus!
