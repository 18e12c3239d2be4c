//! The commands that the editor understands, and how input events map to
//! them.

use crate::event::{Event, KeyCode, KeyEvent, KeyEventKind, KeyModifiers};
use crate::terminal::Size;
use vstd::prelude::*;

verus! {

/// Where a `Move` takes the cursor.
#[derive(Clone, Copy, Debug, PartialEq, Eq, Structural)]
pub enum Direction {
    PageUp,
    PageDown,
    Home,
    End,
    Up,
    Down,
    Left,
    Right,
}

/// What one input event asks of the editor.
#[derive(Clone, Copy, Debug, PartialEq, Eq, Structural)]
pub enum EditorCommand {
    Move(Direction),
    Resize(Size),
    Quit,
}

/// Why an input event is no command. The error carries the input that was
/// not understood.
#[derive(Clone, Copy, Debug, PartialEq, Eq, Structural)]
pub enum DecodeError {
    /// A key was pressed that no command is bound to.
    KeyNotSupported(KeyCode),
    /// The event is neither a key press nor a resize.
    EventNotSupported(Event),
}

/// The direction that a navigation key stands for.
pub open spec fn direction_of(code: KeyCode) -> Option<Direction> {
    match code {
        KeyCode::Up => Some(Direction::Up),
        KeyCode::Down => Some(Direction::Down),
        KeyCode::Left => Some(Direction::Left),
        KeyCode::Right => Some(Direction::Right),
        KeyCode::Home => Some(Direction::Home),
        KeyCode::End => Some(Direction::End),
        KeyCode::PageUp => Some(Direction::PageUp),
        KeyCode::PageDown => Some(Direction::PageDown),
        _ => None,
    }
}

/// The command that `event` stands for.
///
/// Control with `q`, and no other modifier, quits. A navigation key moves,
/// whatever modifiers are held. A resize carries the new size. Only key
/// presses count: a key that repeats or is released is no command, nor is any
/// other key or any other kind of event.
pub open spec fn decode(event: Event) -> Result<EditorCommand, DecodeError> {
    match event {
        Event::Key(key) => if key.kind != KeyEventKind::Press {
            Err(DecodeError::EventNotSupported(event))
        } else if key.code == KeyCode::Char('q') && key.modifiers.is_control() {
            Ok(EditorCommand::Quit)
        } else {
            match direction_of(key.code) {
                Some(direction) => Ok(EditorCommand::Move(direction)),
                None => Err(DecodeError::KeyNotSupported(key.code)),
            }
        },
        Event::Resize(width, height) => Ok(
            EditorCommand::Resize(Size { height: height as usize, width: width as usize }),
        ),
        _ => Err(DecodeError::EventNotSupported(event)),
    }
}

impl TryFrom<Event> for EditorCommand {
    type Error = DecodeError;

    /// Decodes one input event. Nothing is read or written: the result
    /// depends on `event` alone.
    fn try_from(event: Event) -> (result: Result<Self, Self::Error>)
    {
        match event {
            Event::Key(KeyEvent { code, modifiers, kind }) => {
                match kind {
                    KeyEventKind::Press => {},
                    _ => {
                        return Err(DecodeError::EventNotSupported(event));
                    },
                }
                let KeyModifiers { shift, control, alt, super_key, hyper, meta } = modifiers;
                let control_only = control && !shift && !alt && !super_key && !hyper && !meta;
                match code {
                    KeyCode::Char('q') if control_only => Ok(EditorCommand::Quit),
                    KeyCode::Up => Ok(EditorCommand::Move(Direction::Up)),
                    KeyCode::Down => Ok(EditorCommand::Move(Direction::Down)),
                    KeyCode::Left => Ok(EditorCommand::Move(Direction::Left)),
                    KeyCode::Right => Ok(EditorCommand::Move(Direction::Right)),
                    KeyCode::Home => Ok(EditorCommand::Move(Direction::Home)),
                    KeyCode::End => Ok(EditorCommand::Move(Direction::End)),
                    KeyCode::PageUp => Ok(EditorCommand::Move(Direction::PageUp)),
                    KeyCode::PageDown => Ok(EditorCommand::Move(Direction::PageDown)),
                    _ => Err(DecodeError::KeyNotSupported(code)),
                }
            },
            Event::Resize(width_u16, height_u16) => {
                let height = height_u16 as usize;
                let width = width_u16 as usize;
                Ok(EditorCommand::Resize(Size { height, width }))
            },
            _ => Err(DecodeError::EventNotSupported(event)),
        }
    }
}

impl vstd::std_specs::convert::TryFromSpecImpl<Event> for EditorCommand {
    open spec fn obeys_try_from_spec() -> bool {
        true
    }

    open spec fn try_from_spec(event: Event) -> Result<Self, DecodeError> {
        decode(event)
    }
}

} // verus!
