//! A modal line editor engine in the style of vi: a Normal / Insert / Command
//! mode machine over an in-memory, line-oriented byte buffer with a cursor.
//!
//! Design choices, each stated in the model of [`editor::step`]:
//! - The engine is byte-oriented: every call consumes one raw input byte, and
//!   multi-byte encoded characters are not reassembled.
//! - `j` moves up and `k` moves down: deliberately the inverse of vi's
//!   mapping.
//! - A horizontal or vertical move clamps the column to the last byte of the
//!   target line, and to 0 on an empty line.
//! - Backspace at the start of a line moves the cursor to the end of the line
//!   above without joining the two lines.
//! - Newline opens an empty line below the cursor's line; the bytes after the
//!   cursor stay where they are.
//!
//! Terminal setup, reading input and drawing the screen are left to the
//! caller; [`laws`] states properties of sequences of inputs.
pub mod command;
pub mod editor;
pub mod laws;

pub use command::{parse_command, Command, EditError};
pub use editor::{Cursor, Editor, EditorView, Mode, Outcome};
