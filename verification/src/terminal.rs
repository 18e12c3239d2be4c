//! The terminal as the library sees it: a grid of a given size, and the
//! operations that a driver carries out on it.

use crate::location::Location;
use vstd::prelude::*;
use vstd::string::*;

verus! {

/// The size of the visible grid, in rows and columns.
#[derive(Clone, Copy, Debug, PartialEq, Eq, Structural, Default)]
pub struct Size {
    pub height: usize,
    pub width: usize,
}

/// A cell of the visible grid, counted from the top left corner.
#[derive(Clone, Copy, Debug, PartialEq, Eq, Structural, Default)]
pub struct Position {
    pub row: usize,
    pub col: usize,
}

impl From<Location> for Position {
    /// Reads a document location as a grid cell: the row is `y`, the column
    /// is `x`.
    fn from(location: Location) -> (position: Position)
    {
        Position { row: location.y, col: location.x }
    }
}

impl vstd::std_specs::convert::FromSpecImpl<Location> for Position {
    open spec fn obeys_from_spec() -> bool {
        true
    }

    open spec fn from_spec(location: Location) -> Position {
        Position { row: location.y, col: location.x }
    }
}

/// One operation on the terminal. The library only says which operations are
/// due and in which order; a driver outside it carries them out.
#[derive(Debug, PartialEq, Eq)]
pub enum TerminalOp {
    /// Hide the caret.
    HideCaret,
    /// Show the caret.
    ShowCaret,
    /// Put the caret on this cell.
    MoveCaretTo(Position),
    /// Clear the row that the caret is on.
    ClearLine,
    /// Write this text at the caret.
    Print(String),
    /// Send everything that was queued so far to the screen.
    Execute,
}

/// A terminal operation as a plain value: the text to print is a sequence
/// of characters.
pub enum TerminalOpView {
    HideCaret,
    ShowCaret,
    MoveCaretTo(Position),
    ClearLine,
    Print(Seq<char>),
    Execute,
}

impl View for TerminalOp {
    type V = TerminalOpView;

    open spec fn view(&self) -> TerminalOpView {
        match *self {
            TerminalOp::HideCaret => TerminalOpView::HideCaret,
            TerminalOp::ShowCaret => TerminalOpView::ShowCaret,
            TerminalOp::MoveCaretTo(position) => TerminalOpView::MoveCaretTo(position),
            TerminalOp::ClearLine => TerminalOpView::ClearLine,
            TerminalOp::Print(text) => TerminalOpView::Print(text@),
            TerminalOp::Execute => TerminalOpView::Execute,
        }
    }
}

/// The operations of `ops`, each as a plain value, in the same order.
pub open spec fn ops_view(ops: Seq<TerminalOp>) -> Seq<TerminalOpView> {
    ops.map_values(|op: TerminalOp| op@)
}

/// What it takes to show `text` on row `row` in place of whatever the row
/// showed before: go to the start of the row, clear it, print.
pub open spec fn row_ops(row: usize, text: Seq<char>) -> Seq<TerminalOpView> {
    seq![
        TerminalOpView::MoveCaretTo(Position { row, col: 0 }),
        TerminalOpView::ClearLine,
        TerminalOpView::Print(text),
    ]
}

/// Composes operations on the terminal.
pub struct Terminal;

impl Terminal {
    /// The operations that replace row `row` of the grid by `text_line`.
    pub fn print_row(row: usize, text_line: &str) -> (ops: Vec<TerminalOp>)
        ensures
            ops_view(ops@) == row_ops(row, text_line@),
    {
        let mut ops = Vec::new();
        ops.push(TerminalOp::MoveCaretTo(Position { row, col: 0 }));
        ops.push(TerminalOp::ClearLine);
        ops.push(TerminalOp::Print(String::from_str(text_line)));
        ops
    }
}

} // verus!
