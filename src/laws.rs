//! Properties of the editing model over sequences of input bytes.
use vstd::prelude::*;

use crate::command::is_quit;
use crate::editor::{
    insert_step, step, EditorView, Mode, OutcomeView, DEL, ESC, KEY_COMMAND, KEY_INSERT, NEWLINE,
};

verus! {

/// The state reached from `v` by handling the bytes of `input` in order.
pub open spec fn run(v: EditorView, input: Seq<u8>) -> EditorView
    decreases input.len(),
{
    if input.len() == 0 {
        v
    } else {
        step(run(v, input.drop_last()), input.last()).0
    }
}

/// A byte that Insert mode inserts as it is: printable ASCII.
pub open spec fn is_printable(b: u8) -> bool {
    0x20 <= b < 0x7f
}

/// `n` delete bytes.
pub open spec fn deletes(n: nat) -> Seq<u8> {
    Seq::new(n, |i: int| DEL)
}

/// Handling `a` and then `b` is handling `a + b`.
pub proof fn lemma_run_append(v: EditorView, a: Seq<u8>, b: Seq<u8>)
    ensures
        run(v, a + b) == run(run(v, a), b),
    decreases b.len(),
{
    if b.len() == 0 {
        assert(a + b =~= a);
    } else {
        lemma_run_append(v, a, b.drop_last());
        assert((a + b).drop_last() =~= a + b.drop_last());
        assert((a + b).last() == b.last());
    }
}

/// Every byte keeps the text non-empty and the cursor inside it.
pub proof fn lemma_step_wf(v: EditorView, b: u8)
    requires
        v.wf(),
    ensures
        step(v, b).0.wf(),
{
}

/// Whatever bytes are handled from a well-formed state, every state on the way
/// keeps the text non-empty and the cursor inside it: on a line, at most one
/// past its last byte.
pub proof fn lemma_run_wf(v: EditorView, input: Seq<u8>)
    requires
        v.wf(),
    ensures
        forall|i: int| 0 <= i <= input.len() ==> #[trigger] run(v, input.take(i)).wf(),
    decreases input.len(),
{
    if input.len() > 0 {
        lemma_run_wf(v, input.drop_last());
        assert forall|i: int| 0 <= i <= input.len() implies #[trigger] run(v, input.take(i)).wf() by {
            if i < input.len() {
                assert(input.take(i) =~= input.drop_last().take(i));
            } else {
                assert(input.take(i) =~= input);
                assert(input.drop_last().take(input.len() - 1) =~= input.drop_last());
                lemma_step_wf(run(v, input.drop_last()), input.last());
            }
        }
    }
}

/// Inserting printable bytes in Insert mode puts them at the cursor, in
/// order, and moves the cursor past them.
proof fn lemma_run_printable(v: EditorView, bytes: Seq<u8>)
    requires
        v.wf(),
        v.mode == Mode::Insert,
        forall|i: int| 0 <= i < bytes.len() ==> is_printable(#[trigger] bytes[i]),
    ensures
        run(v, bytes) == (EditorView {
            lines: v.lines.update(
                v.row,
                v.lines[v.row].take(v.col) + bytes + v.lines[v.row].skip(v.col),
            ),
            col: v.col + bytes.len(),
            ..v
        }),
    decreases bytes.len(),
{
    let line = v.lines[v.row];
    if bytes.len() == 0 {
        assert(line.take(v.col) + bytes + line.skip(v.col) =~= line);
        assert(v.lines.update(v.row, line) =~= v.lines);
    } else {
        let init = bytes.drop_last();
        lemma_run_printable(v, init);
        let w = run(v, init);
        assert(is_printable(bytes[bytes.len() - 1]));
        let prev = line.take(v.col) + init + line.skip(v.col);
        assert(w.lines[v.row] == prev);
        assert(prev.insert(v.col + init.len(), bytes.last())
            =~= line.take(v.col) + bytes + line.skip(v.col));
        assert(w.lines.update(v.row, prev.insert(v.col + init.len(), bytes.last())) =~= v.lines.update(
            v.row,
            line.take(v.col) + bytes + line.skip(v.col),
        ));
    }
}

/// Deleting from just past `q`, in a line `p + q + s`, `j` times removes the
/// last `j` bytes of `q`.
proof fn lemma_run_deletes(u: EditorView, p: Seq<u8>, q: Seq<u8>, s: Seq<u8>, j: nat)
    requires
        u.wf(),
        u.mode == Mode::Insert,
        u.lines[u.row] == p + q + s,
        u.col == p.len() + q.len(),
        j <= q.len(),
    ensures
        run(u, deletes(j)) == (EditorView {
            lines: u.lines.update(u.row, p + q.take(q.len() - j) + s),
            col: p.len() + q.len() - j,
            ..u
        }),
    decreases j,
{
    if j == 0 {
        assert(q.take(q.len() as int) =~= q);
        assert(u.lines.update(u.row, p + q + s) =~= u.lines);
    } else {
        assert(deletes(j).drop_last() =~= deletes((j - 1) as nat));
        lemma_run_deletes(u, p, q, s, (j - 1) as nat);
        let k = q.len() - j;
        let prev = p + q.take(k + 1) + s;
        assert(prev.remove(p.len() + k) =~= p + q.take(k) + s);
        assert(u.lines.update(u.row, prev).update(u.row, p + q.take(k) + s)
            =~= u.lines.update(u.row, p + q.take(k) + s));
    }
}

/// In Insert mode, typing `n` printable bytes and then `n` backspaces gives
/// back the state typed from: the same line content and cursor column.
pub proof fn lemma_insert_then_delete(v: EditorView, bytes: Seq<u8>)
    requires
        v.wf(),
        v.mode == Mode::Insert,
        forall|i: int| 0 <= i < bytes.len() ==> is_printable(#[trigger] bytes[i]),
    ensures
        run(v, bytes + deletes(bytes.len())) == v,
{
    let line = v.lines[v.row];
    lemma_run_append(v, bytes, deletes(bytes.len()));
    lemma_run_printable(v, bytes);
    let w = run(v, bytes);
    lemma_run_deletes(w, line.take(v.col), bytes, line.skip(v.col), bytes.len());
    assert(bytes.take(0) =~= Seq::<u8>::empty());
    assert(line.take(v.col) + bytes.take(0) + line.skip(v.col) =~= line);
    assert(w.lines.update(v.row, line) =~= v.lines);
}

/// Entering Insert mode with `i` and leaving it with escape changes nothing
/// but the mode on the way: the text and the cursor are as before.
pub proof fn lemma_insert_escape(v: EditorView)
    requires
        v.wf(),
        v.mode == Mode::Normal,
    ensures
        run(v, seq![KEY_INSERT, ESC]) == v,
        run(v, seq![KEY_INSERT]).lines == v.lines,
{
    let keys = seq![KEY_INSERT, ESC];
    assert(keys.drop_last() =~= seq![KEY_INSERT]);
    assert(seq![KEY_INSERT].drop_last() =~= Seq::<u8>::empty());
    assert(run(v, Seq::empty()) == v);
    assert(run(v, seq![KEY_INSERT]) == step(v, KEY_INSERT).0);
    assert(run(v, keys) == step(v.with_mode(Mode::Insert), ESC).0);
}

/// A newline typed in Insert mode adds exactly one line and puts the cursor at
/// column 0.
pub proof fn lemma_newline(v: EditorView)
    requires
        v.wf(),
        v.mode == Mode::Insert,
    ensures
        insert_step(v, NEWLINE).lines.len() == v.lines.len() + 1,
        insert_step(v, NEWLINE).col == 0,
        step(v, NEWLINE).0 == insert_step(v, NEWLINE),
{
}

/// In Command mode, bytes other than newline are appended to the command
/// line and change nothing else.
pub proof fn lemma_run_command_line(w: EditorView, typed: Seq<u8>)
    requires
        w.mode == Mode::Command,
        forall|i: int| 0 <= i < typed.len() ==> #[trigger] typed[i] != NEWLINE,
    ensures
        run(w, typed) == (EditorView { command: w.command + typed, ..w }),
    decreases typed.len(),
{
    if typed.len() == 0 {
        assert(w.command + typed =~= w.command);
    } else {
        lemma_run_command_line(w, typed.drop_last());
        assert(typed[typed.len() - 1] != NEWLINE);
        assert((w.command + typed.drop_last()).push(typed.last()) =~= w.command + typed);
    }
}

/// From Normal mode, `:` and then the bytes of `typed`: the command line
/// holds exactly `typed`, and the text and cursor are as before.
proof fn lemma_type_command(v: EditorView, typed: Seq<u8>)
    requires
        v.mode == Mode::Normal,
        forall|i: int| 0 <= i < typed.len() ==> #[trigger] typed[i] != NEWLINE,
    ensures
        run(v, seq![KEY_COMMAND] + typed) == (EditorView { mode: Mode::Command, command: typed, ..v }),
{
    let colon = seq![KEY_COMMAND];
    lemma_run_append(v, colon, typed);
    assert(colon.drop_last() =~= Seq::<u8>::empty());
    assert(run(v, Seq::empty()) == v);
    let w = run(v, colon);
    assert(w == step(v, KEY_COMMAND).0);
    lemma_run_command_line(w, typed);
    assert(Seq::<u8>::empty() + typed =~= typed);
}

/// `:q` or `:quit` typed from Normal mode ends the session on the newline,
/// whatever the text holds.
pub proof fn lemma_quit(v: EditorView, typed: Seq<u8>)
    requires
        v.mode == Mode::Normal,
        is_quit(typed),
    ensures
        step(run(v, seq![KEY_COMMAND] + typed), NEWLINE).1 == OutcomeView::End,
{
    assert(forall|i: int| 0 <= i < typed.len() ==> #[trigger] typed[i] != NEWLINE);
    lemma_type_command(v, typed);
}

/// A command line other than `q` or `quit`, typed from Normal mode, gives an
/// error carrying the bytes typed on the newline, goes back to Normal mode
/// with an empty command line, and leaves the text and the cursor as before.
pub proof fn lemma_unknown_command(v: EditorView, typed: Seq<u8>)
    requires
        v.mode == Mode::Normal,
        !is_quit(typed),
        forall|i: int| 0 <= i < typed.len() ==> #[trigger] typed[i] != NEWLINE,
    ensures
        step(run(v, seq![KEY_COMMAND] + typed), NEWLINE) == (
            EditorView { command: Seq::empty(), ..v },
            OutcomeView::Error(typed),
        ),
{
    lemma_type_command(v, typed);
}

} // verus!
