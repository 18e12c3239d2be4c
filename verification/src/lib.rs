//! A minimal terminal text viewer: a text buffer, a cursor that always stays
//! inside the document, a window that follows the cursor, and the decoding
//! of input events into commands.
//!
//! The library decides; it performs no input or output. Rendering yields the
//! terminal operations to carry out, and events arrive as plain values.

pub mod buffer;
pub mod command;
pub mod editor;
pub mod event;
pub mod line;
pub mod location;
pub mod terminal;
pub mod view;
