use cosmic_hex::cursor::EditMode;
use cosmic_hex::session::EditSession;

fn bytes_of(s: &EditSession) -> Vec<u8> {
    s.buffer().data.clone()
}

#[test]
fn typing_a_hex_digit_edits_the_high_nibble() {
    // "ABC": typing '5' on the high nibble of byte 0 gives 0x51 and the
    // cursor advances one nibble; one undo restores byte and cursor.
    let mut s = EditSession::new(vec![0x41, 0x42, 0x43]);
    assert!(s.type_char('5'));
    assert_eq!(bytes_of(&s), vec![0x51, 0x42, 0x43]);
    assert_eq!(s.cursor().position, 1);
    s.undo();
    assert_eq!(bytes_of(&s), vec![0x41, 0x42, 0x43]);
    assert_eq!(s.cursor().position, 0);
}

#[test]
fn typing_edits_the_low_nibble_at_odd_positions() {
    let mut s = EditSession::new(vec![0x41, 0x42]);
    s.move_right();
    assert!(s.type_char('f'));
    assert_eq!(bytes_of(&s), vec![0x4F, 0x42]);
    assert_eq!(s.cursor().position, 2);
}

#[test]
fn non_hex_keystroke_in_hex_mode_changes_nothing() {
    let mut s = EditSession::new(vec![0x41]);
    assert!(!s.type_char('x'));
    assert_eq!(bytes_of(&s), vec![0x41]);
    assert_eq!(s.cursor().position, 0);
    assert!(!s.is_dirty());
}

#[test]
fn ascii_mode_replaces_the_whole_byte() {
    let mut s = EditSession::new(vec![0x41, 0x42]);
    s.toggle_mode();
    assert_eq!(s.cursor().in_hex, EditMode::Ascii);
    assert!(s.type_char('Z'));
    assert_eq!(bytes_of(&s), vec![0x5A, 0x42]);
    assert_eq!(s.cursor().position, 2);
}

#[test]
fn typing_on_an_empty_buffer_is_a_no_op() {
    let mut s = EditSession::new(vec![]);
    assert!(!s.type_char('5'));
    assert_eq!(bytes_of(&s), Vec::<u8>::new());
}

#[test]
fn typing_at_the_last_nibble_saturates_the_cursor() {
    let mut s = EditSession::new(vec![0x41]);
    s.move_right();
    assert_eq!(s.cursor().position, 1);
    assert!(s.type_char('0'));
    assert_eq!(bytes_of(&s), vec![0x40]);
    assert_eq!(s.cursor().position, 1);
}

#[test]
fn edits_then_equal_undos_round_trip() {
    let mut s = EditSession::new(vec![0x10, 0x20, 0x30, 0x40]);
    s.move_to(5);
    let before = bytes_of(&s);
    let cursor_before = s.cursor().position;
    assert_eq!(s.commit(0, 0xAA, 1), Ok(()));
    assert_eq!(s.commit(2, 0xBB, 5), Ok(()));
    assert_eq!(s.commit(0, 0xCC, 7), Ok(()));
    assert_eq!(bytes_of(&s), vec![0xCC, 0x20, 0xBB, 0x40]);
    s.undo();
    s.undo();
    s.undo();
    assert_eq!(bytes_of(&s), before);
    assert_eq!(s.cursor().position, cursor_before);
}

#[test]
fn undo_then_redo_is_a_round_trip() {
    let mut s = EditSession::new(vec![0x41, 0x42, 0x43]);
    s.type_char('5');
    s.type_char('f');
    let bytes = bytes_of(&s);
    let cursor = s.cursor().position;
    let dirty = s.is_dirty();
    s.undo();
    s.redo();
    assert_eq!(bytes_of(&s), bytes);
    assert_eq!(s.cursor().position, cursor);
    assert_eq!(s.is_dirty(), dirty);
}

#[test]
fn undo_and_redo_on_empty_stacks_are_no_ops() {
    let mut s = EditSession::new(vec![0x41]);
    s.undo();
    s.redo();
    assert_eq!(bytes_of(&s), vec![0x41]);
    assert!(!s.is_dirty());
}

#[test]
fn a_new_edit_clears_the_redo_stack() {
    let mut s = EditSession::new(vec![0x41, 0x42]);
    s.type_char('1');
    s.undo();
    s.type_char('2');
    let bytes = bytes_of(&s);
    s.redo();
    assert_eq!(bytes_of(&s), bytes);
}

#[test]
fn dirty_follows_the_undo_depth() {
    let mut s = EditSession::new(vec![0x41, 0x42]);
    assert!(!s.is_dirty());
    s.type_char('5');
    assert!(s.is_dirty());
    s.mark_saved();
    assert!(!s.is_dirty());
    s.undo();
    assert!(s.is_dirty());
    s.redo();
    assert!(!s.is_dirty());
}

#[test]
fn saved_session_stays_clean_under_navigation() {
    let mut s = EditSession::new(vec![0x41, 0x42, 0x43, 0x44]);
    s.type_char('5');
    s.mark_saved();
    assert!(!s.is_dirty());
    s.move_to(3);
    s.move_left();
    s.move_right();
    s.move_down(2);
    s.move_up(2);
    s.move_to_line_start(2);
    s.move_to_line_end(2);
    s.move_to_buffer_start();
    s.move_to_buffer_end();
    s.move_page_up(2, 3);
    s.move_page_down(2, 3);
    s.toggle_mode();
    s.toggle_mode();
    s.find_next(&vec![0x42]);
    s.find_previous(&vec![0x42]);
    s.set_focus(false);
    assert!(!s.is_dirty());
    s.type_char('6');
    assert!(s.is_dirty());
}

#[test]
fn commit_rejects_an_out_of_range_offset() {
    let mut s = EditSession::new(vec![0x41]);
    assert!(s.commit(1, 0xFF, 0).is_err());
    assert_eq!(bytes_of(&s), vec![0x41]);
    assert!(!s.is_dirty());
}

#[test]
fn session_find_next_moves_the_cursor() {
    let mut s = EditSession::new(vec![0x00, 0xAB, 0xCD, 0xAB, 0xCD]);
    assert!(s.find_next(&vec![0xAB, 0xCD]));
    assert_eq!(s.cursor().position, 2);
    // Move past the first match, then search again.
    s.move_to(4);
    assert!(s.find_next(&vec![0xAB, 0xCD]));
    assert_eq!(s.cursor().position, 6);
}

#[test]
fn session_find_previous_moves_the_cursor() {
    let mut s = EditSession::new(vec![0x00, 0xAB, 0xCD, 0xAB, 0xCD]);
    s.move_to_buffer_end();
    assert!(s.find_previous(&vec![0xAB, 0xCD]));
    assert_eq!(s.cursor().position, 6);
    assert!(s.find_previous(&vec![0xAB, 0xCD]));
    assert_eq!(s.cursor().position, 2);
    assert!(!s.find_previous(&vec![0xAB, 0xCD]));
    assert_eq!(s.cursor().position, 2);
}

#[test]
fn failed_search_leaves_the_session_unchanged() {
    let mut s = EditSession::new(vec![0x01, 0x02]);
    s.move_to(1);
    assert!(!s.find_next(&vec![0x99]));
    assert_eq!(s.cursor().position, 1);
    assert!(!s.find_next(&vec![]));
    assert_eq!(s.cursor().position, 1);
}

#[test]
fn mode_survives_searches_and_moves() {
    let mut s = EditSession::new(vec![0x00, 0xAB]);
    s.toggle_mode();
    s.find_next(&vec![0xAB]);
    s.move_to(0);
    assert_eq!(s.cursor().in_hex, EditMode::Ascii);
}
