use modal_editor::editor::{DEL, ESC, NEWLINE};
use modal_editor::{parse_command, Command, Cursor, EditError, Editor, Mode, Outcome};

fn feed(ed: &mut Editor, bytes: &[u8]) -> Vec<Outcome> {
    let mut outcomes = Vec::new();
    for &b in bytes {
        outcomes.push(ed.handle_input(b));
    }
    outcomes
}

fn lines(ed: &Editor) -> Vec<Vec<u8>> {
    (0..ed.line_count()).map(|r| ed.line(r).unwrap().clone()).collect()
}

fn assert_in_bounds(ed: &Editor) {
    let c = ed.cursor();
    assert!(c.row < ed.line_count());
    assert!(c.col <= ed.line(c.row).unwrap().len());
}

#[test]
fn fresh_state() {
    let ed = Editor::new();
    assert_eq!(lines(&ed), vec![Vec::<u8>::new()]);
    assert_eq!(ed.cursor(), Cursor { row: 0, col: 0 });
    assert_eq!(ed.mode(), Mode::Normal);
    assert!(ed.command_line().is_empty());
}

#[test]
fn insert_hello_then_escape() {
    let mut ed = Editor::new();
    let outcomes = feed(&mut ed, &[b'i', b'h', b'e', b'l', b'l', b'o', ESC]);
    assert!(outcomes.iter().all(|o| *o == Outcome::Continue));
    assert_eq!(lines(&ed), vec![b"hello".to_vec()]);
    assert_eq!(ed.cursor(), Cursor { row: 0, col: 5 });
    assert_eq!(ed.mode(), Mode::Normal);
}

#[test]
fn quit_ends_on_newline() {
    let mut ed = Editor::new();
    let outcomes = feed(&mut ed, b":quit\n");
    assert_eq!(outcomes.len(), 6);
    for o in &outcomes[..5] {
        assert_eq!(*o, Outcome::Continue);
    }
    assert_eq!(outcomes[5], Outcome::End);
}

#[test]
fn short_quit_ends_after_text() {
    let mut ed = Editor::new();
    feed(&mut ed, b"iabc\ndef");
    feed(&mut ed, &[ESC]);
    let outcomes = feed(&mut ed, b":q\n");
    assert_eq!(outcomes[2], Outcome::End);
    assert!(ed.command_line().is_empty());
}

#[test]
fn unknown_command_foo() {
    let mut ed = Editor::new();
    let outcomes = feed(&mut ed, b":foo\n");
    let last = outcomes[4].clone();
    assert_eq!(last, Outcome::Error(EditError::UnknownCommand(b"foo".to_vec())));
    match last {
        Outcome::Error(e) => assert_eq!(e.message(), "Unknown command"),
        _ => panic!("expected an error"),
    }
    assert_eq!(ed.mode(), Mode::Normal);
    assert!(ed.command_line().is_empty());
}

#[test]
fn bogus_command_keeps_text() {
    let mut ed = Editor::new();
    feed(&mut ed, b"ixy\nz");
    feed(&mut ed, &[ESC]);
    let before = lines(&ed);
    let cursor = ed.cursor();
    let outcomes = feed(&mut ed, b":bogus\n");
    assert_eq!(outcomes[6], Outcome::Error(EditError::UnknownCommand(b"bogus".to_vec())));
    assert_eq!(ed.mode(), Mode::Normal);
    assert_eq!(lines(&ed), before);
    assert_eq!(ed.cursor(), cursor);
}

#[test]
fn two_backspaces_empty_the_line() {
    let mut ed = Editor::new();
    feed(&mut ed, b"iab");
    assert_eq!(ed.mode(), Mode::Insert);
    assert_eq!(ed.cursor().col, 2);
    feed(&mut ed, &[DEL, DEL]);
    assert_eq!(lines(&ed), vec![Vec::<u8>::new()]);
    assert_eq!(ed.cursor().col, 0);
}

#[test]
fn vertical_moves_stay_on_single_line() {
    let mut ed = Editor::new();
    feed(&mut ed, b"k");
    assert_eq!(ed.cursor(), Cursor { row: 0, col: 0 });
    feed(&mut ed, b"j");
    assert_eq!(ed.cursor(), Cursor { row: 0, col: 0 });
}

#[test]
fn insert_then_delete_restores_line() {
    let mut ed = Editor::new();
    feed(&mut ed, b"iabcd");
    feed(&mut ed, &[ESC]);
    feed(&mut ed, b"hh");
    feed(&mut ed, b"i");
    let before = lines(&ed);
    let cursor = ed.cursor();
    assert_eq!(cursor.col, 2);
    feed(&mut ed, b"XYZ");
    assert_eq!(lines(&ed), vec![b"abXYZcd".to_vec()]);
    feed(&mut ed, &[DEL, DEL, DEL]);
    assert_eq!(lines(&ed), before);
    assert_eq!(ed.cursor(), cursor);
}

#[test]
fn insert_escape_keeps_text() {
    let mut ed = Editor::new();
    feed(&mut ed, b"ione\ntwo");
    feed(&mut ed, &[ESC]);
    let before = lines(&ed);
    let cursor = ed.cursor();
    feed(&mut ed, b"i");
    assert_eq!(ed.mode(), Mode::Insert);
    feed(&mut ed, &[ESC]);
    assert_eq!(ed.mode(), Mode::Normal);
    assert_eq!(lines(&ed), before);
    assert_eq!(ed.cursor(), cursor);
}

#[test]
fn navigation_stays_in_bounds() {
    let mut ed = Editor::new();
    feed(&mut ed, b"ilong line\n\nab");
    feed(&mut ed, &[ESC]);
    for &key in b"kkkkjjjjjjlllllllllllllhhhhhhhhhhhhhhkkjlllkhjx" {
        ed.handle_input(key);
        assert_in_bounds(&ed);
    }
}

#[test]
fn newline_adds_one_line_below_cursor() {
    let mut ed = Editor::new();
    feed(&mut ed, b"iab\ncd");
    assert_eq!(ed.line_count(), 2);
    feed(&mut ed, &[ESC]);
    feed(&mut ed, b"j");
    assert_eq!(ed.cursor().row, 0);
    feed(&mut ed, b"i");
    feed(&mut ed, &[NEWLINE]);
    assert_eq!(ed.line_count(), 3);
    assert_eq!(ed.cursor(), Cursor { row: 1, col: 0 });
    assert_eq!(lines(&ed), vec![b"ab".to_vec(), Vec::new(), b"cd".to_vec()]);
}

#[test]
fn newline_does_not_split_line() {
    let mut ed = Editor::new();
    feed(&mut ed, b"iabc");
    feed(&mut ed, &[ESC]);
    feed(&mut ed, b"h");
    feed(&mut ed, b"i\n");
    assert_eq!(lines(&ed), vec![b"abc".to_vec(), Vec::new()]);
    assert_eq!(ed.cursor(), Cursor { row: 1, col: 0 });
}

#[test]
fn backspace_at_line_start_moves_up_without_join() {
    let mut ed = Editor::new();
    feed(&mut ed, b"iabc\nd");
    feed(&mut ed, &[DEL, DEL]);
    assert_eq!(lines(&ed), vec![b"abc".to_vec(), Vec::new()]);
    assert_eq!(ed.cursor(), Cursor { row: 0, col: 3 });
}

#[test]
fn backspace_at_text_start_does_nothing() {
    let mut ed = Editor::new();
    feed(&mut ed, b"i");
    feed(&mut ed, &[DEL]);
    assert_eq!(lines(&ed), vec![Vec::<u8>::new()]);
    assert_eq!(ed.cursor(), Cursor { row: 0, col: 0 });
    assert_eq!(ed.mode(), Mode::Insert);
}

#[test]
fn backspace_removes_byte_before_cursor() {
    let mut ed = Editor::new();
    feed(&mut ed, b"iabc");
    feed(&mut ed, &[ESC]);
    feed(&mut ed, b"h");
    assert_eq!(ed.cursor().col, 2);
    feed(&mut ed, b"i");
    feed(&mut ed, &[DEL]);
    assert_eq!(lines(&ed), vec![b"ac".to_vec()]);
    assert_eq!(ed.cursor().col, 1);
}

#[test]
fn right_move_clamps_to_last_byte() {
    let mut ed = Editor::new();
    feed(&mut ed, b"ihello");
    feed(&mut ed, &[ESC]);
    assert_eq!(ed.cursor().col, 5);
    feed(&mut ed, b"l");
    assert_eq!(ed.cursor().col, 4);
    feed(&mut ed, b"h");
    assert_eq!(ed.cursor().col, 3);
}

#[test]
fn moves_on_empty_line_keep_column_zero() {
    let mut ed = Editor::new();
    feed(&mut ed, b"lhlh");
    assert_eq!(ed.cursor(), Cursor { row: 0, col: 0 });
}

#[test]
fn vertical_moves_through_empty_line() {
    let mut ed = Editor::new();
    feed(&mut ed, b"iab\n\nxyz");
    feed(&mut ed, &[ESC]);
    feed(&mut ed, b"jj");
    assert_eq!(ed.cursor(), Cursor { row: 0, col: 0 });
    feed(&mut ed, b"k");
    assert_eq!(ed.cursor(), Cursor { row: 1, col: 0 });
    feed(&mut ed, b"k");
    assert_eq!(ed.cursor(), Cursor { row: 2, col: 0 });
    feed(&mut ed, b"lll");
    assert_eq!(ed.cursor(), Cursor { row: 2, col: 2 });
}

#[test]
fn down_move_clamps_column_to_shorter_line() {
    let mut ed = Editor::new();
    feed(&mut ed, b"iabcd\nef");
    feed(&mut ed, &[ESC]);
    feed(&mut ed, b"j");
    assert_eq!(ed.cursor(), Cursor { row: 0, col: 2 });
    feed(&mut ed, b"lll");
    assert_eq!(ed.cursor(), Cursor { row: 0, col: 3 });
    feed(&mut ed, b"k");
    assert_eq!(ed.cursor(), Cursor { row: 1, col: 1 });
}

#[test]
fn move_cursor_clamps_large_steps() {
    let mut ed = Editor::new();
    feed(&mut ed, b"iabcd\nef");
    feed(&mut ed, &[ESC]);
    ed.move_cursor(isize::MIN, isize::MIN);
    assert_eq!(ed.cursor(), Cursor { row: 0, col: 0 });
    ed.move_cursor(isize::MAX, 0);
    assert_eq!(ed.cursor(), Cursor { row: 0, col: 3 });
    ed.move_cursor(isize::MAX, isize::MAX);
    assert_eq!(ed.cursor(), Cursor { row: 1, col: 1 });
}

#[test]
fn other_normal_bytes_do_nothing() {
    let mut ed = Editor::new();
    let outcomes = feed(&mut ed, b"xyz\n");
    assert!(outcomes.iter().all(|o| *o == Outcome::Continue));
    assert_eq!(ed.mode(), Mode::Normal);
    assert_eq!(lines(&ed), vec![Vec::<u8>::new()]);
}

#[test]
fn command_line_accumulates_and_resets() {
    let mut ed = Editor::new();
    feed(&mut ed, b":ab");
    assert_eq!(ed.mode(), Mode::Command);
    assert_eq!(ed.command_line(), &b"ab".to_vec());
    feed(&mut ed, b"c");
    assert_eq!(ed.command_line(), &b"abc".to_vec());
    feed(&mut ed, b"\n");
    assert!(ed.command_line().is_empty());
    feed(&mut ed, b":q");
    assert_eq!(ed.command_line(), &b"q".to_vec());
}

#[test]
fn colon_in_normal_clears_command_line() {
    let mut ed = Editor::new();
    feed(&mut ed, b":zz\n:");
    assert!(ed.command_line().is_empty());
    assert_eq!(ed.mode(), Mode::Command);
}

#[test]
fn command_mode_bytes_are_not_text() {
    let mut ed = Editor::new();
    feed(&mut ed, b":ihello\n");
    assert_eq!(lines(&ed), vec![Vec::<u8>::new()]);
}

#[test]
fn handlers_return_next_mode() {
    let mut ed = Editor::new();
    assert_eq!(ed.handle_normal(b'i'), (Outcome::Continue, Mode::Insert));
    assert_eq!(ed.mode(), Mode::Normal);
    assert_eq!(ed.handle_normal(b':'), (Outcome::Continue, Mode::Command));
    assert_eq!(ed.handle_normal(b'x'), (Outcome::Continue, Mode::Normal));
    ed.handle_input(b'i');
    assert_eq!(ed.handle_insert(b'a'), (Outcome::Continue, Mode::Insert));
    assert_eq!(ed.handle_insert(ESC), (Outcome::Continue, Mode::Normal));
    assert_eq!(ed.mode(), Mode::Insert);
    assert_eq!(lines(&ed), vec![b"a".to_vec()]);
    ed.handle_input(ESC);
    ed.handle_input(b':');
    assert_eq!(ed.handle_command(b'q'), (Outcome::Continue, Mode::Command));
    assert_eq!(ed.handle_command(NEWLINE), (Outcome::End, Mode::Command));
}

#[test]
fn line_past_the_end_is_none() {
    let mut ed = Editor::new();
    assert!(ed.line(1).is_none());
    feed(&mut ed, b"ia\nb");
    assert_eq!(ed.line(1), Some(&b"b".to_vec()));
    assert!(ed.line(2).is_none());
    assert!(ed.line(usize::MAX).is_none());
}

#[test]
fn parse_command_exact_matches() {
    assert_eq!(parse_command(b"q"), Ok(Command::Quit));
    assert_eq!(parse_command(b"quit"), Ok(Command::Quit));
    assert_eq!(parse_command(b""), Err(EditError::UnknownCommand(Vec::new())));
    assert_eq!(parse_command(b"qu"), Err(EditError::UnknownCommand(b"qu".to_vec())));
    assert_eq!(parse_command(b"quit "), Err(EditError::UnknownCommand(b"quit ".to_vec())));
    assert_eq!(parse_command(b"Q"), Err(EditError::UnknownCommand(b"Q".to_vec())));
}
