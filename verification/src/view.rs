//! The view: the document, the cursor in it, and the window through which
//! the terminal shows it.

use crate::buffer::{row_len, split_lines, Buffer, LoadError};
use crate::command::{Direction, EditorCommand};
use crate::line::clamped_subrange;
use crate::location::{distance, Location};
use crate::terminal::{ops_view, row_ops, Position, Size, Terminal, TerminalOp, TerminalOpView};
use vstd::prelude::*;
use vstd::string::*;
use vstd::view::View as _;

verus! {

/// The name under which the program greets.
pub const NAME: &'static str = "text_viewer";

/// The version that the greeting states.
pub const VERSION: &'static str = "0.1.0";

/// The greeting: the name of the program, what it is, and its version.
pub open spec fn welcome_message() -> Seq<char> {
    NAME@ + " editor --version"@ + VERSION@
}

/// The row that greets on a grid `width` columns wide. Where the greeting
/// does not fit with room to spare, a lone tilde stands in for it. Otherwise
/// a tilde leads the row and blanks centre the greeting.
pub open spec fn welcome_banner(width: usize) -> Seq<char> {
    let message = welcome_message();
    if width <= message.len() {
        seq!['~']
    } else {
        let padding = (width - message.len() - 1) / 2;
        seq!['~'] + Seq::new(padding as nat, |i: int| ' ') + message
    }
}

/// Where `direction` takes a cursor at `location`, before the result is
/// brought back into the document. `height` is the number of visible rows,
/// which is what a page is. Rows that the document does not have count as
/// empty.
pub open spec fn stepped(
    location: Location,
    direction: Direction,
    lines: Seq<Seq<char>>,
    height: usize,
) -> Location {
    let Location { x, y } = location;
    match direction {
        Direction::Up => Location { x, y: y.saturating_sub(1) },
        Direction::Down => Location { x, y: y.saturating_add(1) },
        Direction::Left => if x > 0 {
            Location { x: (x - 1) as usize, y }
        } else if y > 0 {
            Location { x: row_len(lines, y - 1) as usize, y: (y - 1) as usize }
        } else {
            location
        },
        Direction::Right => if x < row_len(lines, y as int) {
            Location { x: (x + 1) as usize, y }
        } else {
            Location { x: 0, y: y.saturating_add(1) }
        },
        Direction::PageUp => Location { x, y: y.saturating_sub(height).saturating_sub(1) },
        Direction::PageDown => Location { x, y: y.saturating_add(height).saturating_sub(1) },
        Direction::Home => Location { x: 0, y },
        Direction::End => Location { x: row_len(lines, y as int) as usize, y },
    }
}

/// `location` brought back into the document: first the row, to at most the
/// number of lines, then the column, to at most the length of that row. The
/// row just past the last line has no text, so there the column is zero.
pub open spec fn clamped(location: Location, lines: Seq<Seq<char>>) -> Location {
    let y = if location.y <= lines.len() {
        location.y
    } else {
        lines.len() as usize
    };
    let x = if location.x <= row_len(lines, y as int) {
        location.x
    } else {
        row_len(lines, y as int) as usize
    };
    Location { x, y }
}

/// The new window origin along one axis: the window starts at `offset`,
/// spans `extent` cells, and must hold the coordinate `at`. A coordinate
/// before the window pulls the origin back onto itself; one more than
/// `extent` past the origin pushes the origin forward by the overshoot.
pub open spec fn scrolled(offset: usize, at: usize, extent: usize) -> usize {
    if at < offset {
        at
    } else if at > offset + extent {
        (at - extent) as usize
    } else {
        offset
    }
}

/// What a view is, as plain values.
pub struct ViewState {
    /// The text of each row of the document.
    pub lines: Seq<Seq<char>>,
    /// Whether the screen no longer shows this state.
    pub needs_redraw: bool,
    /// The size of the visible grid.
    pub size: Size,
    /// The cursor, in document coordinates.
    pub location: Location,
    /// The document location shown in the top left cell of the grid.
    pub scroll_offset: Location,
}

impl ViewState {
    /// The state of a fresh view on a grid of `size`: no document, cursor
    /// and window at the origin, nothing drawn yet.
    pub open spec fn initial(size: Size) -> ViewState {
        ViewState {
            lines: Seq::empty(),
            needs_redraw: true,
            size,
            location: Location { x: 0, y: 0 },
            scroll_offset: Location { x: 0, y: 0 },
        }
    }

    /// The state after taking over what reading a source gave: the lines of
    /// the text replace the document and the screen is out of date, or, if
    /// the source was not read, nothing changes.
    pub open spec fn loaded(self, source: Result<String, LoadError>) -> ViewState {
        match source {
            Ok(text) => ViewState { lines: split_lines(text@), needs_redraw: true, ..self },
            Err(_) => self,
        }
    }

    /// The cursor is on a row of the document or just past its last row, and
    /// not beyond the end of the text of its row.
    pub open spec fn cursor_in_document(self) -> bool {
        &&& self.location.y <= self.lines.len()
        &&& self.location.x <= row_len(self.lines, self.location.y as int)
    }

    /// The cursor is not before the window origin, and at most one window
    /// extent past it, in both directions.
    pub open spec fn cursor_in_window(self) -> bool {
        &&& self.scroll_offset.y <= self.location.y <= self.scroll_offset.y + self.size.height
        &&& self.scroll_offset.x <= self.location.x <= self.scroll_offset.x + self.size.width
    }

    /// The state after the window was moved to hold the cursor. A window
    /// that had to move leaves the screen out of date.
    pub open spec fn scroll_into_view(self) -> ViewState {
        let offset = Location {
            x: scrolled(self.scroll_offset.x, self.location.x, self.size.width),
            y: scrolled(self.scroll_offset.y, self.location.y, self.size.height),
        };
        ViewState {
            scroll_offset: offset,
            needs_redraw: self.needs_redraw || offset != self.scroll_offset,
            ..self
        }
    }

    /// The state after the cursor moved in `direction`, was brought back
    /// into the document, and the window followed it.
    pub open spec fn move_by(self, direction: Direction) -> ViewState {
        let target = stepped(self.location, direction, self.lines, self.size.height);
        ViewState { location: clamped(target, self.lines), ..self }.scroll_into_view()
    }

    /// The state after the visible grid changed to `size`: the window
    /// follows the cursor, and the screen is out of date.
    pub open spec fn resize(self, size: Size) -> ViewState {
        ViewState { needs_redraw: true, ..ViewState { size, ..self }.scroll_into_view() }
    }

    /// The state after `command`. `Quit` is not the view's business and
    /// leaves it as it is.
    pub open spec fn handle(self, command: EditorCommand) -> ViewState {
        match command {
            EditorCommand::Resize(size) => self.resize(size),
            EditorCommand::Move(direction) => self.move_by(direction),
            EditorCommand::Quit => self,
        }
    }

    /// The state after every direction of `directions` was applied in turn.
    pub open spec fn move_all(self, directions: Seq<Direction>) -> ViewState
        decreases directions.len(),
    {
        if directions.len() == 0 {
            self
        } else {
            self.move_all(directions.drop_last()).move_by(directions.last())
        }
    }

    /// The text that row `row` of the grid shows: the part of the document
    /// row behind it that the window spans; on an empty document, the
    /// greeting a third of the way down; and a tilde on every other row
    /// that lies past the end of the document.
    pub open spec fn row_text(self, row: int) -> Seq<char> {
        let doc_row = row + self.scroll_offset.y;
        if doc_row < self.lines.len() {
            clamped_subrange(
                self.lines[doc_row],
                self.scroll_offset.x as int,
                self.scroll_offset.x.saturating_add(self.size.width) as int,
            )
        } else if self.lines.len() == 0 && row == self.size.height / 3 {
            welcome_banner(self.size.width)
        } else {
            seq!['~']
        }
    }

    /// The operations that draw the first `rows` rows of the grid, top row
    /// first.
    pub open spec fn frame(self, rows: nat) -> Seq<TerminalOpView>
        decreases rows,
    {
        if rows == 0 {
            Seq::empty()
        } else {
            self.frame((rows - 1) as nat) + row_ops((rows - 1) as usize, self.row_text(rows - 1))
        }
    }

    /// Whether rendering draws at all: the screen is out of date, and the
    /// grid has at least one cell.
    pub open spec fn draws(self) -> bool {
        self.needs_redraw && self.size.height > 0 && self.size.width > 0
    }

    /// The operations that rendering asks for: every row of the grid if it
    /// draws, and none otherwise.
    pub open spec fn render_ops(self) -> Seq<TerminalOpView> {
        if self.draws() {
            self.frame(self.size.height as nat)
        } else {
            Seq::empty()
        }
    }

    /// The state after rendering: up to date if it drew, and unchanged
    /// otherwise.
    pub open spec fn rendered(self) -> ViewState {
        if self.draws() {
            ViewState { needs_redraw: false, ..self }
        } else {
            self
        }
    }

    /// The grid cell of the cursor: its location relative to the window
    /// origin.
    pub open spec fn screen_position(self) -> Position {
        Position {
            row: distance(self.location.y, self.scroll_offset.y),
            col: distance(self.location.x, self.scroll_offset.x),
        }
    }
}

/// Bringing a location back into the document puts it on a row of the
/// document or just past the last one, and within the text of its row.
pub proof fn lemma_clamped_in_document(location: Location, lines: Seq<Seq<char>>)
    ensures
        clamped(location, lines).y <= lines.len(),
        clamped(location, lines).x <= row_len(lines, clamped(location, lines).y as int),
{
}

/// After the window has followed the cursor, the cursor is not before the
/// window origin and at most one extent past it, along each axis.
pub proof fn lemma_scroll_holds_cursor(state: ViewState)
    ensures
        state.scroll_into_view().cursor_in_window(),
        state.scroll_into_view().location == state.location,
        state.scroll_into_view().lines == state.lines,
        state.scroll_into_view().size == state.size,
{
}

/// After any move, from any state, the cursor is in the document and in the
/// window.
pub proof fn lemma_move_keeps_cursor(state: ViewState, direction: Direction)
    ensures
        state.move_by(direction).cursor_in_document(),
        state.move_by(direction).cursor_in_window(),
        state.move_by(direction).lines == state.lines,
        state.move_by(direction).size == state.size,
{
    let target = stepped(state.location, direction, state.lines, state.size.height);
    lemma_clamped_in_document(target, state.lines);
    lemma_scroll_holds_cursor(ViewState { location: clamped(target, state.lines), ..state });
}

/// After every move of a sequence of moves, however long and from whatever
/// state it starts, the cursor is in the document and in the window.
pub proof fn lemma_moves_keep_cursor(state: ViewState, directions: Seq<Direction>, count: int)
    requires
        0 < count <= directions.len(),
    ensures
        state.move_all(directions.take(count)).cursor_in_document(),
        state.move_all(directions.take(count)).cursor_in_window(),
{
    let prefix = directions.take(count);
    lemma_move_all_keeps_document(state, prefix.drop_last());
    lemma_move_keeps_cursor(state.move_all(prefix.drop_last()), prefix.last());
}

/// Moves change neither the document nor the size of the grid.
pub proof fn lemma_move_all_keeps_document(state: ViewState, directions: Seq<Direction>)
    ensures
        state.move_all(directions).lines == state.lines,
        state.move_all(directions).size == state.size,
    decreases directions.len(),
{
    if directions.len() > 0 {
        lemma_move_all_keeps_document(state, directions.drop_last());
        lemma_move_keeps_cursor(state.move_all(directions.drop_last()), directions.last());
    }
}

/// No command takes the cursor out of the document or out of the window:
/// where both held it before a command, both hold it after.
pub proof fn lemma_handle_keeps_cursor(state: ViewState, command: EditorCommand)
    requires
        state.cursor_in_document(),
        state.cursor_in_window(),
    ensures
        state.handle(command).cursor_in_document(),
        state.handle(command).cursor_in_window(),
        state.handle(command).lines == state.lines,
{
    match command {
        EditorCommand::Move(direction) => lemma_move_keeps_cursor(state, direction),
        EditorCommand::Resize(size) => lemma_scroll_holds_cursor(ViewState { size, ..state }),
        EditorCommand::Quit => {},
    }
}

/// Rendering a second time, with nothing changed in between, asks for no
/// operation and changes nothing.
pub proof fn lemma_render_is_idempotent(state: ViewState)
    ensures
        state.rendered().render_ops() == Seq::<TerminalOpView>::empty(),
        state.rendered().rendered() == state.rendered(),
{
}

/// On a grid without rows or without columns rendering asks for no
/// operation, and the screen stays as out of date as it was.
pub proof fn lemma_degenerate_grid_draws_nothing(state: ViewState)
    requires
        state.size.height == 0 || state.size.width == 0,
    ensures
        state.render_ops() == Seq::<TerminalOpView>::empty(),
        state.rendered() == state,
{
}

/// A document, a cursor in it, and a window onto it that follows the cursor.
pub struct View {
    buffer: Buffer,
    needs_redraw: bool,
    size: Size,
    location: Location,
    scroll_offset: Location,
}

impl vstd::view::View for View {
    type V = ViewState;

    closed spec fn view(&self) -> ViewState {
        ViewState {
            lines: self.buffer@,
            needs_redraw: self.needs_redraw,
            size: self.size,
            location: self.location,
            scroll_offset: self.scroll_offset,
        }
    }
}

impl View {
    /// The view of an empty document on a grid of `size`, with the cursor
    /// and the window at the origin, not yet drawn.
    pub fn new(size: Size) -> (view: View)
        ensures
            view@ == ViewState::initial(size),
    {
        View {
            buffer: Buffer::default(),
            needs_redraw: true,
            size,
            location: Location { x: 0, y: 0 },
            scroll_offset: Location { x: 0, y: 0 },
        }
    }

    /// Brings the screen up to date. Returns the operations that do so, in
    /// order, and none if the screen is up to date already or the grid has
    /// no cell. Only a render that draws marks the screen as up to date.
    pub fn render(&mut self) -> (ops: Vec<TerminalOp>)
        ensures
            ops_view(ops@) == old(self)@.render_ops(),
            final(self)@ == old(self)@.rendered(),
    {
        let mut ops: Vec<TerminalOp> = Vec::new();
        if !self.needs_redraw {
            return ops;
        }
        let Size { height, width } = self.size;
        if height == 0 || width == 0 {
            return ops;
        }
        let vertical_center: usize = height / 3;
        let top: usize = self.scroll_offset.y;
        let mut current_row: usize = 0;
        while current_row < height
            invariant
                current_row <= height,
                height == self.size.height,
                width == self.size.width,
                top == self.scroll_offset.y,
                vertical_center == height / 3,
                *self == *old(self),
                ops_view(ops@) == self@.frame(current_row as nat),
            decreases height - current_row,
        {
            let mut row = if let Some(line) = self.buffer.line(current_row.saturating_add(top)) {
                let left: usize = self.scroll_offset.x;
                let right: usize = left.saturating_add(width);
                Self::render_line(current_row, line.get(left..right).as_str())
            } else if vertical_center == current_row && self.buffer.is_empty() {
                Self::render_line(current_row, Self::build_welcome_message(width).as_str())
            } else {
                Self::render_line(current_row, "~")
            };
            proof {
                self.buffer.lemma_line_count_fits();
                reveal_strlit("~");
                assert("~"@ =~= seq!['~']);
            }
            ops.append(&mut row);
            current_row += 1;
        }
        self.needs_redraw = false;
        ops
    }

    /// Takes over what reading a source gave. Where the source was read,
    /// its lines replace the document and the screen is out of date; the
    /// cursor and the window stay where they are. Where it was not, nothing
    /// changes.
    pub fn load(&mut self, source: Result<String, LoadError>)
        ensures
            final(self)@ == old(self)@.loaded(source),
    {
        if let Ok(buffer) = Buffer::load(source) {
            self.buffer = buffer;
            self.needs_redraw = true;
        }
    }

    /// Carries out `command`: a resize or a move. `Quit` changes nothing
    /// here. After a move the cursor is in the document; after a move or a
    /// resize it is in the window.
    pub fn handle_command(&mut self, command: EditorCommand)
        ensures
            final(self)@ == old(self)@.handle(command),
            command is Move ==> final(self)@.cursor_in_document(),
            !(command is Quit) ==> final(self)@.cursor_in_window(),
    {
        match command {
            EditorCommand::Resize(size) => self.resize(size),
            EditorCommand::Move(direction) => self.move_text_location(&direction),
            EditorCommand::Quit => {},
        }
    }

    /// The operations that show `line_text` on row `at` of the grid.
    pub fn render_line(at: usize, line_text: &str) -> (ops: Vec<TerminalOp>)
        ensures
            ops_view(ops@) == row_ops(at, line_text@),
    {
        Terminal::print_row(at, line_text)
    }

    /// The grid cell at which the cursor is shown.
    pub fn get_position(&self) -> (position: Position)
        ensures
            position == self@.screen_position(),
            self@.scroll_offset.le(self@.location) ==> {
                &&& position.row == self@.location.y - self@.scroll_offset.y
                &&& position.col == self@.location.x - self@.scroll_offset.x
            },
    {
        Position::from(self.location.subtract(&self.scroll_offset))
    }

    /// The document.
    pub fn buffer(&self) -> (buffer: &Buffer)
        ensures
            buffer@ == self@.lines,
    {
        &self.buffer
    }

    /// Whether the screen no longer shows the state of the view.
    pub fn needs_redraw(&self) -> (dirty: bool)
        ensures
            dirty == self@.needs_redraw,
    {
        self.needs_redraw
    }

    /// The size of the visible grid.
    pub fn size(&self) -> (size: Size)
        ensures
            size == self@.size,
    {
        self.size
    }

    /// The cursor, in document coordinates.
    pub fn location(&self) -> (location: Location)
        ensures
            location == self@.location,
    {
        self.location
    }

    /// The document location shown in the top left cell of the grid.
    pub fn scroll_offset(&self) -> (offset: Location)
        ensures
            offset == self@.scroll_offset,
    {
        self.scroll_offset
    }

    /// The row that greets, for a grid `width` columns wide. It never takes
    /// more than `width` columns, unless there is no column at all.
    fn build_welcome_message(width: usize) -> (banner: String)
        ensures
            banner@ == welcome_banner(width),
            width > 0 ==> banner@.len() <= width,
    {
        let mut message = String::from_str(NAME);
        message.append(" editor --version");
        message.append(VERSION);
        let len: usize = message.as_str().unicode_len();
        if width <= len {
            proof {
                reveal_strlit("~");
            }
            let tilde = String::from_str("~");
            assert(tilde@ =~= seq!['~']);
            return tilde;
        }
        let padding: usize = (width - len - 1) / 2;
        let mut banner = String::from_str("~");
        let mut blanks: usize = 0;
        while blanks < padding
            invariant
                blanks <= padding,
                banner@ == "~"@ + Seq::new(blanks as nat, |i: int| ' '),
            decreases padding - blanks,
        {
            proof {
                reveal_strlit(" ");
            }
            banner.append(" ");
            blanks += 1;
        }
        banner.append(message.as_str());
        proof {
            reveal_strlit("~");
            assert(banner@ =~= welcome_banner(width));
        }
        banner
    }

    /// Moves the cursor in `direction`, brings it back into the document,
    /// and lets the window follow.
    fn move_text_location(&mut self, direction: &Direction)
        ensures
            final(self)@ == old(self)@.move_by(*direction),
            final(self)@.cursor_in_document(),
            final(self)@.cursor_in_window(),
    {
        let mut x: usize = self.location.x;
        let mut y: usize = self.location.y;
        let height: usize = self.size.height;
        match direction {
            Direction::Up => {
                y = y.saturating_sub(1);
            },
            Direction::Down => {
                y = y.saturating_add(1);
            },
            Direction::Left => {
                if x > 0 {
                    x -= 1;
                } else if y > 0 {
                    y -= 1;
                    x = self.buffer.line_len(y);
                }
            },
            Direction::Right => {
                let width: usize = self.buffer.line_len(y);
                if x < width {
                    x += 1;
                } else {
                    y = y.saturating_add(1);
                    x = 0;
                }
            },
            Direction::PageUp => {
                y = y.saturating_sub(height).saturating_sub(1);
            },
            Direction::PageDown => {
                y = y.saturating_add(height).saturating_sub(1);
            },
            Direction::Home => {
                x = 0;
            },
            Direction::End => {
                x = self.buffer.line_len(y);
            },
        }
        let count: usize = self.buffer.line_count();
        if y > count {
            y = count;
        }
        let width: usize = self.buffer.line_len(y);
        if x > width {
            x = width;
        }
        self.location = Location { x, y };
        self.scroll_location_into_view();
    }

    /// Takes `to` as the size of the grid, lets the window follow the
    /// cursor, and marks the screen as out of date.
    fn resize(&mut self, to: Size)
        ensures
            final(self)@ == old(self)@.resize(to),
            final(self)@.cursor_in_window(),
    {
        self.size = to;
        self.scroll_location_into_view();
        self.needs_redraw = true;
    }

    /// Moves the window so that it holds the cursor, and marks the screen as
    /// out of date if the window moved.
    fn scroll_location_into_view(&mut self)
        ensures
            final(self)@ == old(self)@.scroll_into_view(),
            final(self)@.cursor_in_window(),
    {
        let Location { x, y } = self.location;
        let Size { height, width } = self.size;
        let mut offset_changed = false;
        if y < self.scroll_offset.y {
            self.scroll_offset.y = y;
            offset_changed = true;
        } else if y > self.scroll_offset.y.saturating_add(height) {
            self.scroll_offset.y = y - height;
            offset_changed = true;
        }
        if x < self.scroll_offset.x {
            self.scroll_offset.x = x;
            offset_changed = true;
        } else if x > self.scroll_offset.x.saturating_add(width) {
            self.scroll_offset.x = x - width;
            offset_changed = true;
        }
        if offset_changed {
            self.needs_redraw = true;
        }
    }
}

} // verus!
