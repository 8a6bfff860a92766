use vstd::prelude::*;

use crate::command::{is_quit, parse_command, Command, EditError};

verus! {

/// The escape byte: leaves Insert mode.
pub const ESC: u8 = 0x1b;

/// The delete byte sent by the backspace key.
pub const DEL: u8 = 0x7f;

/// The newline byte: opens a line in Insert mode, runs the command line in
/// Command mode.
pub const NEWLINE: u8 = 0x0a;

/// `i`: Normal mode to Insert mode.
pub const KEY_INSERT: u8 = 0x69;

/// `:`: Normal mode to Command mode.
pub const KEY_COMMAND: u8 = 0x3a;

/// `h`: one column left.
pub const KEY_LEFT: u8 = 0x68;

/// `l`: one column right.
pub const KEY_RIGHT: u8 = 0x6c;

/// `j`: one row up, towards the first line. This mapping is deliberately the
/// inverse of vi's.
pub const KEY_UP: u8 = 0x6a;

/// `k`: one row down, towards the last line (see [`KEY_UP`]).
pub const KEY_DOWN: u8 = 0x6b;

/// The mode that decides how the next input byte is read.
#[derive(Clone, Copy, Debug, PartialEq, Eq, Structural)]
pub enum Mode {
    Normal,
    Insert,
    Command,
}

/// A position in the text: `row` indexes the lines, `col` the bytes of a line.
#[derive(Clone, Copy, Debug, PartialEq, Eq, Structural)]
pub struct Cursor {
    pub row: usize,
    pub col: usize,
}

/// What the handling of one input byte leads to.
#[derive(Clone, Debug, PartialEq, Eq)]
pub enum Outcome {
    /// Keep reading input.
    Continue,
    /// The session is over: no further input is to be handled.
    End,
    /// A recoverable error; the session goes on in Normal mode.
    Error(EditError),
}

/// The mathematical state of an editor.
pub ghost struct EditorView {
    pub mode: Mode,
    /// The command line typed so far in Command mode.
    pub command: Seq<u8>,
    /// The lines of the text, in display order.
    pub lines: Seq<Seq<u8>>,
    pub row: int,
    pub col: int,
}

/// The mathematical value of an [`Outcome`].
pub ghost enum OutcomeView {
    Continue,
    End,
    /// An unknown command, with the bytes typed.
    Error(Seq<u8>),
}

impl View for Outcome {
    type V = OutcomeView;

    open spec fn view(&self) -> OutcomeView {
        match self {
            Outcome::Continue => OutcomeView::Continue,
            Outcome::End => OutcomeView::End,
            Outcome::Error(e) => OutcomeView::Error(e@),
        }
    }
}

/// The editing session: text, cursor, mode and command line.
pub struct Editor {
    mode: Mode,
    command: Vec<u8>,
    text: Vec<Vec<u8>>,
    cursor: Cursor,
}

pub open spec fn clamp(x: int, lo: int, hi: int) -> int {
    if x < lo {
        lo
    } else if x > hi {
        hi
    } else {
        x
    }
}

impl EditorView {
    /// The text holds at least one line and the cursor stands on a line, at
    /// most one past its last byte.
    pub open spec fn wf(self) -> bool {
        &&& self.lines.len() >= 1
        &&& 0 <= self.row < self.lines.len()
        &&& 0 <= self.col <= self.lines[self.row].len()
    }

    pub open spec fn with_mode(self, mode: Mode) -> EditorView {
        EditorView { mode, ..self }
    }

    /// The cursor moved by `dx` columns and `dy` rows: the row is clamped into
    /// the text, then the column into the target line (to 0 on an empty line,
    /// else to its last byte).
    pub open spec fn moved(self, dx: int, dy: int) -> EditorView {
        let row = clamp(self.row + dy, 0, self.lines.len() - 1);
        let len = self.lines[row].len();
        let col = if len == 0 { 0 } else { clamp(self.col + dx, 0, len - 1) };
        EditorView { row, col, ..self }
    }
}

/// Normal mode: `i` and `:` pick the next mode (`:` clears the command line),
/// `h`, `l`, `j`, `k` move the cursor, any other byte does nothing.
pub open spec fn normal_step(v: EditorView, b: u8) -> (EditorView, OutcomeView) {
    if b == KEY_INSERT {
        (v.with_mode(Mode::Insert), OutcomeView::Continue)
    } else if b == KEY_COMMAND {
        (EditorView { mode: Mode::Command, command: Seq::empty(), ..v }, OutcomeView::Continue)
    } else if b == KEY_LEFT {
        (v.moved(-1, 0), OutcomeView::Continue)
    } else if b == KEY_RIGHT {
        (v.moved(1, 0), OutcomeView::Continue)
    } else if b == KEY_UP {
        (v.moved(0, -1), OutcomeView::Continue)
    } else if b == KEY_DOWN {
        (v.moved(0, 1), OutcomeView::Continue)
    } else {
        (v, OutcomeView::Continue)
    }
}

/// Insert mode, which always continues. Escape goes back to Normal mode.
/// Delete removes the byte before the cursor; at the start of a line it moves
/// the cursor to the end of the line above and joins nothing. Newline opens an
/// empty line below the cursor's line, leaving the rest of that line in
/// place, and moves to its start. Any other byte is inserted at the cursor.
pub open spec fn insert_step(v: EditorView, b: u8) -> EditorView {
    if b == ESC {
        v.with_mode(Mode::Normal)
    } else if b == DEL {
        if v.col > 0 {
            EditorView {
                lines: v.lines.update(v.row, v.lines[v.row].remove(v.col - 1)),
                col: v.col - 1,
                ..v
            }
        } else if v.row > 0 {
            EditorView { row: v.row - 1, col: v.lines[v.row - 1].len() as int, ..v }
        } else {
            v
        }
    } else if b == NEWLINE {
        EditorView { lines: v.lines.insert(v.row + 1, Seq::empty()), row: v.row + 1, col: 0, ..v }
    } else {
        EditorView {
            lines: v.lines.update(v.row, v.lines[v.row].insert(v.col, b)),
            col: v.col + 1,
            ..v
        }
    }
}

/// Command mode: newline resolves the command line and clears it; `q` or
/// `quit` ends the session, anything else is an error that returns to Normal
/// mode. Any other byte is appended to the command line.
pub open spec fn command_step(v: EditorView, b: u8) -> (EditorView, OutcomeView) {
    if b == NEWLINE {
        if is_quit(v.command) {
            (EditorView { command: Seq::empty(), ..v }, OutcomeView::End)
        } else {
            (
                EditorView { mode: Mode::Normal, command: Seq::empty(), ..v },
                OutcomeView::Error(v.command),
            )
        }
    } else {
        (EditorView { command: v.command.push(b), ..v }, OutcomeView::Continue)
    }
}

/// The handling of one input byte: the next state and the outcome.
pub open spec fn step(v: EditorView, b: u8) -> (EditorView, OutcomeView) {
    match v.mode {
        Mode::Normal => normal_step(v, b),
        Mode::Insert => (insert_step(v, b), OutcomeView::Continue),
        Mode::Command => command_step(v, b),
    }
}

impl View for Editor {
    type V = EditorView;

    closed spec fn view(&self) -> EditorView {
        EditorView {
            mode: self.mode,
            command: self.command@,
            lines: self.text@.map_values(|l: Vec<u8>| l@),
            row: self.cursor.row as int,
            col: self.cursor.col as int,
        }
    }
}

impl Editor {
    pub open spec fn wf(&self) -> bool {
        self@.wf()
    }

    /// A fresh session: one empty line, the cursor at its start, Normal mode.
    pub fn new() -> (r: Editor)
        ensures
            r@ == (EditorView {
                mode: Mode::Normal,
                command: Seq::empty(),
                lines: seq![Seq::empty()],
                row: 0,
                col: 0,
            }),
            r.wf(),
    {
        let mut text: Vec<Vec<u8>> = Vec::new();
        text.push(Vec::new());
        let r = Editor { mode: Mode::Normal, command: Vec::new(), text, cursor: Cursor { row: 0, col: 0 } };
        assert(r@.lines =~= seq![Seq::<u8>::empty()]);
        assert(r@.command =~= Seq::<u8>::empty());
        r
    }

    /// Moves the cursor by `dx` columns and `dy` rows, clamped as
    /// [`EditorView::moved`] says; both coordinates are committed together.
    pub fn move_cursor(&mut self, dx: isize, dy: isize)
        requires
            old(self).wf(),
        ensures
            final(self)@ == old(self)@.moved(dx as int, dy as int),
            final(self).wf(),
    {
        let ghost v = self@;
        let n = self.text.len();
        let target: i128 = self.cursor.row as i128 + dy as i128;
        let row: usize = if target < 0 {
            0
        } else if target > (n - 1) as i128 {
            n - 1
        } else {
            target as usize
        };
        let len = self.text[row].len();
        let col: usize = if len == 0 {
            0
        } else {
            let c: i128 = self.cursor.col as i128 + dx as i128;
            if c < 0 {
                0
            } else if c > (len - 1) as i128 {
                len - 1
            } else {
                c as usize
            }
        };
        self.cursor = Cursor { row, col };
        assert(self@.lines =~= v.lines);
    }

    /// Handles one byte in Normal mode. The mode itself is left to the
    /// caller: it is returned beside the outcome.
    pub fn handle_normal(&mut self, input: u8) -> (r: (Outcome, Mode))
        requires
            old(self).wf(),
            old(self)@.mode == Mode::Normal,
        ensures
            normal_step(old(self)@, input) == (final(self)@.with_mode(r.1), r.0@),
            final(self)@.mode == old(self)@.mode,
            final(self).wf(),
    {
        let ghost v = self@;
        if input == KEY_INSERT {
            (Outcome::Continue, Mode::Insert)
        } else if input == KEY_COMMAND {
            self.command = Vec::new();
            assert(self@.lines =~= v.lines);
            assert(self@.command =~= Seq::<u8>::empty());
            (Outcome::Continue, Mode::Command)
        } else if input == KEY_LEFT {
            self.move_cursor(-1, 0);
            (Outcome::Continue, Mode::Normal)
        } else if input == KEY_RIGHT {
            self.move_cursor(1, 0);
            (Outcome::Continue, Mode::Normal)
        } else if input == KEY_UP {
            self.move_cursor(0, -1);
            (Outcome::Continue, Mode::Normal)
        } else if input == KEY_DOWN {
            self.move_cursor(0, 1);
            (Outcome::Continue, Mode::Normal)
        } else {
            (Outcome::Continue, Mode::Normal)
        }
    }

    /// Handles one byte in Insert mode, which always continues. The mode
    /// itself is left to the caller: it is returned beside the outcome.
    pub fn handle_insert(&mut self, input: u8) -> (r: (Outcome, Mode))
        requires
            old(self).wf(),
            old(self)@.mode == Mode::Insert,
        ensures
            insert_step(old(self)@, input) == final(self)@.with_mode(r.1),
            r.0 == Outcome::Continue,
            final(self)@.mode == old(self)@.mode,
            final(self).wf(),
    {
        let ghost v = self@;
        if input == ESC {
            return (Outcome::Continue, Mode::Normal);
        }
        let row = self.cursor.row;
        let col = self.cursor.col;
        if input == DEL {
            if col > 0 {
                let mut line = self.text.remove(row);
                line.remove(col - 1);
                self.text.insert(row, line);
                self.cursor.col = col - 1;
                assert(self@.lines =~= v.lines.update(row as int, v.lines[row as int].remove(col - 1)));
            } else if row > 0 {
                let len = self.text[row - 1].len();
                self.cursor = Cursor { row: row - 1, col: len };
            }
            return (Outcome::Continue, Mode::Insert);
        }
        if input == NEWLINE {
            let n = self.text.len();
            assert(row < n);
            self.text.insert(row + 1, Vec::new());
            self.cursor = Cursor { row: row + 1, col: 0 };
            assert(self@.lines =~= v.lines.insert(row + 1, Seq::empty()));
            return (Outcome::Continue, Mode::Insert);
        }
        let mut line = self.text.remove(row);
        line.insert(col, input);
        let len = line.len();
        assert(col < len);
        self.text.insert(row, line);
        self.cursor.col = col + 1;
        assert(self@.lines =~= v.lines.update(row as int, v.lines[row as int].insert(col as int, input)));
        (Outcome::Continue, Mode::Insert)
    }

    /// Handles one byte in Command mode. The mode itself is left to the
    /// caller: it is returned beside the outcome.
    pub fn handle_command(&mut self, input: u8) -> (r: (Outcome, Mode))
        requires
            old(self).wf(),
            old(self)@.mode == Mode::Command,
        ensures
            command_step(old(self)@, input) == (final(self)@.with_mode(r.1), r.0@),
            final(self)@.mode == old(self)@.mode,
            final(self).wf(),
    {
        let ghost v = self@;
        if input == NEWLINE {
            let parsed = parse_command(self.command.as_slice());
            self.command = Vec::new();
            assert(self@.lines =~= v.lines);
            assert(self@.command =~= Seq::<u8>::empty());
            match parsed {
                Ok(Command::Quit) => (Outcome::End, Mode::Command),
                Err(e) => (Outcome::Error(e), Mode::Normal),
            }
        } else {
            self.command.push(input);
            assert(self@.lines =~= v.lines);
            (Outcome::Continue, Mode::Command)
        }
    }

    /// Handles one input byte in the current mode: the text, the cursor, the
    /// mode and the command line change as [`step`] says, and the outcome
    /// tells whether the session goes on.
    pub fn handle_input(&mut self, input: u8) -> (r: Outcome)
        requires
            old(self).wf(),
        ensures
            (final(self)@, r@) == step(old(self)@, input),
            final(self).wf(),
    {
        let (outcome, mode) = match self.mode {
            Mode::Insert => self.handle_insert(input),
            Mode::Normal => self.handle_normal(input),
            Mode::Command => self.handle_command(input),
        };
        self.mode = mode;
        outcome
    }

    /// The current mode.
    pub fn mode(&self) -> (r: Mode)
        ensures
            r == self@.mode,
    {
        self.mode
    }

    /// The cursor position.
    pub fn cursor(&self) -> (r: Cursor)
        ensures
            r.row as int == self@.row,
            r.col as int == self@.col,
    {
        self.cursor
    }

    /// The number of lines of the text.
    pub fn line_count(&self) -> (r: usize)
        ensures
            r as int == self@.lines.len(),
    {
        self.text.len()
    }

    /// The bytes of line `row`, or `None` where the text has no such line.
    pub fn line(&self, row: usize) -> (r: Option<&Vec<u8>>)
        ensures
            row < self@.lines.len() ==> r is Some && r->Some_0@ == self@.lines[row as int],
            row >= self@.lines.len() ==> r is None,
    {
        if row < self.text.len() {
            Some(&self.text[row])
        } else {
            None
        }
    }

    /// The command line typed so far.
    pub fn command_line(&self) -> (r: &Vec<u8>)
        ensures
            r@ == self@.command,
    {
        &self.command
    }
}

} // verus!
