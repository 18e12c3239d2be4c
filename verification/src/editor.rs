//! The editor: a view, and whether the user has asked to leave.
//!
//! The editor does not read events and does not write to the terminal. Its
//! caller hands it each event as it arrives and carries out the operations
//! that a refresh returns.

use crate::buffer::LoadError;
use crate::command::{decode, EditorCommand};
use crate::event::Event;
use crate::terminal::{ops_view, Size, TerminalOp, TerminalOpView};
use crate::view::{lemma_handle_keeps_cursor, View, ViewState};
use vstd::prelude::*;
use vstd::view::View as _;

verus! {

/// What an editor is, as plain values.
pub struct EditorState {
    /// Whether the user has asked to leave.
    pub should_quit: bool,
    /// The state of the view.
    pub view: ViewState,
}

impl EditorState {
    /// The state after `event`. An event that asks to quit is remembered;
    /// one that moves or resizes goes to the view; one that is no command
    /// changes nothing.
    pub open spec fn evaluate(self, event: Event) -> EditorState {
        match decode(event) {
            Ok(EditorCommand::Quit) => EditorState { should_quit: true, ..self },
            Ok(command) => EditorState { view: self.view.handle(command), ..self },
            Err(_) => self,
        }
    }

    /// The state after every event of `events` was evaluated in turn.
    pub open spec fn evaluate_all(self, events: Seq<Event>) -> EditorState
        decreases events.len(),
    {
        if events.len() == 0 {
            self
        } else {
            self.evaluate_all(events.drop_last()).evaluate(events.last())
        }
    }

    /// The operations of one refresh: with the caret hidden, whatever the
    /// view has to draw; then the caret goes to the cursor and shows again,
    /// and everything is sent to the screen.
    pub open spec fn refresh_ops(self) -> Seq<TerminalOpView> {
        seq![TerminalOpView::HideCaret] + self.view.render_ops() + seq![
            TerminalOpView::MoveCaretTo(self.view.screen_position()),
            TerminalOpView::ShowCaret,
            TerminalOpView::Execute,
        ]
    }

    /// The state after one refresh.
    pub open spec fn refreshed(self) -> EditorState {
        EditorState { view: self.view.rendered(), ..self }
    }
}

/// Whatever events arrive, in whatever order, the cursor stays in the
/// document and in the window, and the document stays the same.
pub proof fn lemma_events_keep_cursor(state: EditorState, events: Seq<Event>)
    requires
        state.view.cursor_in_document(),
        state.view.cursor_in_window(),
    ensures
        state.evaluate_all(events).view.cursor_in_document(),
        state.evaluate_all(events).view.cursor_in_window(),
        state.evaluate_all(events).view.lines == state.view.lines,
    decreases events.len(),
{
    if events.len() > 0 {
        lemma_events_keep_cursor(state, events.drop_last());
        let before = state.evaluate_all(events.drop_last());
        match decode(events.last()) {
            Ok(command) => lemma_handle_keeps_cursor(before.view, command),
            Err(_) => {},
        }
    }
}

/// Once the user has asked to leave, no event takes that back.
pub proof fn lemma_quit_is_final(state: EditorState, event: Event)
    requires
        state.should_quit,
    ensures
        state.evaluate(event).should_quit,
{
}

/// A second refresh, with no event in between, draws nothing: it only
/// places the caret again.
pub proof fn lemma_refresh_twice_draws_nothing(state: EditorState)
    ensures
        state.refreshed().refresh_ops() == seq![
            TerminalOpView::HideCaret,
            TerminalOpView::MoveCaretTo(state.view.screen_position()),
            TerminalOpView::ShowCaret,
            TerminalOpView::Execute,
        ],
        state.refreshed().refreshed() == state.refreshed(),
{
    let again = state.refreshed();
    assert(again.view.render_ops() == Seq::<TerminalOpView>::empty());
    assert(again.refresh_ops() =~= seq![
        TerminalOpView::HideCaret,
        TerminalOpView::MoveCaretTo(state.view.screen_position()),
        TerminalOpView::ShowCaret,
        TerminalOpView::Execute,
    ]);
}

/// A view and the wish to leave.
pub struct Editor {
    should_quit: bool,
    view: View,
}

impl vstd::view::View for Editor {
    type V = EditorState;

    closed spec fn view(&self) -> EditorState {
        EditorState { should_quit: self.should_quit, view: self.view@ }
    }
}

impl Editor {
    /// The editor for a terminal of `size`. `source` is what reading the
    /// file named on the command line gave, and `None` where no file was
    /// named. A file that could not be read leaves the document empty.
    pub fn new(size: Size, source: Option<Result<String, LoadError>>) -> (editor: Editor)
        ensures
            !editor@.should_quit,
            editor@.view == match source {
                Some(found) => ViewState::initial(size).loaded(found),
                None => ViewState::initial(size),
            },
            editor@.view.cursor_in_document(),
            editor@.view.cursor_in_window(),
    {
        let mut view = View::new(size);
        if let Some(found) = source {
            view.load(found);
        }
        Editor { should_quit: false, view }
    }

    /// Takes one input event: decodes it, and quits, moves or resizes as it
    /// says. An event that is no command is ignored.
    pub fn evaluate_event(&mut self, event: Event)
        ensures
            final(self)@ == old(self)@.evaluate(event),
    {
        match EditorCommand::try_from(event) {
            Ok(command) => {
                if matches!(command, EditorCommand::Quit) {
                    self.should_quit = true;
                } else {
                    self.view.handle_command(command);
                }
            },
            Err(_) => {},
        }
    }

    /// Brings the screen up to date and puts the caret on the cursor.
    /// Returns the operations that do so, in order.
    pub fn refresh_screen(&mut self) -> (ops: Vec<TerminalOp>)
        ensures
            ops_view(ops@) == old(self)@.refresh_ops(),
            final(self)@ == old(self)@.refreshed(),
    {
        let mut ops: Vec<TerminalOp> = Vec::new();
        ops.push(TerminalOp::HideCaret);
        let mut drawn = self.view.render();
        ops.append(&mut drawn);
        ops.push(TerminalOp::MoveCaretTo(self.view.get_position()));
        ops.push(TerminalOp::ShowCaret);
        ops.push(TerminalOp::Execute);
        proof {
            assert(ops_view(ops@) =~= old(self)@.refresh_ops());
        }
        ops
    }

    /// Whether the user has asked to leave.
    pub fn should_quit(&self) -> (quit: bool)
        ensures
            quit == self@.should_quit,
    {
        self.should_quit
    }

    /// The view that the editor shows.
    pub fn viewport(&self) -> (view: &View)
        ensures
            view@ == self@.view,
    {
        &self.view
    }
}

} // verus!
