//! The editing session: one buffer, one cursor, the undo and redo stacks
//! and the saved-depth marker, composed behind a well-formedness invariant.
//! Every mutating method states its effect as a step function of the
//! session model (see the `model` module), so the round-trip laws proved
//! there describe this type's behaviour.
//!
//! Saving is split at the I/O boundary: the collaborator that owns the
//! file writes `bytes()` out and calls `mark_saved` only when the write
//! succeeded, so a failed save leaves the dirty flag untouched.

use crate::buffer::{DataBuffer, HexError};
use crate::cursor::{clamp_position, Cursor, EditMode};
use crate::model::{
    commit_step,
    cursor_moved,
    mark_saved_step,
    mode_toggled,
    redo_step,
    rec_valid,
    session_dirty,
    session_wf,
    type_char_step,
    undo_step,
    SessionView,
};
use crate::pattern::is_hex_digit;
use crate::search;
use crate::search::matches_at;
use crate::undo::UndoChangeByte;
use vstd::prelude::*;

verus! {

/// One open file being edited.
pub struct EditSession {
    buffer: DataBuffer,
    cursor: Cursor,
    undo_buffer: Vec<UndoChangeByte>,
    redo_buffer: Vec<UndoChangeByte>,
    last_save: usize,
}

impl View for EditSession {
    type V = SessionView;

    closed spec fn view(&self) -> SessionView {
        SessionView {
            bytes: self.buffer@,
            cursor_pos: self.cursor.position as nat,
            mode: self.cursor.in_hex,
            undo: self.undo_buffer@,
            redo: self.redo_buffer@,
            saved_depth: self.last_save as nat,
        }
    }
}

impl EditSession {
    /// The session invariant; every method keeps it.
    pub open spec fn wf(&self) -> bool {
        session_wf(self@)
    }

    /// Opens a session over fully-read file contents. The length bound is
    /// what lets nibble positions be machine integers.
    pub fn new(data: Vec<u8>) -> (s: EditSession)
        requires
            2 * data@.len() <= usize::MAX,
        ensures
            s.wf(),
            s@ == (SessionView {
                bytes: data@,
                cursor_pos: 0,
                mode: EditMode::Hex,
                undo: Seq::empty(),
                redo: Seq::empty(),
                saved_depth: 0,
            }),
    {
        let s = EditSession {
            buffer: DataBuffer { data },
            cursor: Cursor { position: 0, blink: false, focus: true, in_hex: EditMode::Hex },
            undo_buffer: Vec::new(),
            redo_buffer: Vec::new(),
            last_save: 0,
        };
        proof {
            assert(s@.undo =~= Seq::<UndoChangeByte>::empty());
            assert(s@.redo =~= Seq::<UndoChangeByte>::empty());
        }
        s
    }

    pub fn len(&self) -> (n: usize)
        ensures
            n == self@.bytes.len(),
    {
        self.buffer.len()
    }

    /// The buffer, for reads and for writing the file out on save.
    pub fn buffer(&self) -> (b: &DataBuffer)
        ensures
            b@ == self@.bytes,
    {
        &self.buffer
    }

    /// The cursor's current position and mode.
    pub fn cursor(&self) -> (c: Cursor)
        ensures
            c.position == self@.cursor_pos,
            c.in_hex == self@.mode,
    {
        self.cursor
    }

    /// Structural dirtiness: the undo depth differs from the saved depth.
    pub fn is_dirty(&self) -> (dirty: bool)
        ensures
            dirty == session_dirty(self@),
    {
        self.undo_buffer.len() != self.last_save
    }

    /// Records that the buffer now matches what is on disk. Call only
    /// after the write succeeded; a failed save must leave this untouched.
    pub fn mark_saved(&mut self)
        requires
            old(self).wf(),
        ensures
            final(self).wf(),
            final(self)@ == mark_saved_step(old(self)@),
            !session_dirty(final(self)@),
    {
        self.last_save = self.undo_buffer.len();
    }

    /// Commits a single-byte edit: applies `new_value` at once, moves the
    /// cursor to `new_caret_pos` (saturated into range), pushes the
    /// reversing record and clears the redo stack. An out-of-range offset
    /// is rejected and changes nothing.
    pub fn commit(&mut self, offset: usize, new_value: u8, new_caret_pos: usize) -> (r: Result<
        (),
        HexError,
    >)
        requires
            old(self).wf(),
        ensures
            final(self).wf(),
            offset < old(self)@.bytes.len() ==> r == Ok::<(), HexError>(()) && final(self)@
                == commit_step(old(self)@, offset, new_value, new_caret_pos),
            offset >= old(self)@.bytes.len() ==> r == Err::<(), HexError>(HexError::OutOfRange)
                && final(self)@ == old(self)@,
    {
        let len = self.buffer.len();
        if offset >= len {
            return Err(HexError::OutOfRange);
        }
        let old_value = self.buffer.data[offset];
        let maxp: usize = 2 * len - 1;
        let caret: usize = if new_caret_pos > maxp {
            maxp
        } else {
            new_caret_pos
        };
        let rec = UndoChangeByte::new(offset, self.cursor.position, old_value, caret, new_value);
        let _ = self.buffer.set_byte(offset, new_value);
        self.cursor.position = caret;
        self.redo_buffer.clear();
        self.undo_buffer.push(rec);
        proof {
            crate::model::lemma_commit_preserves_wf(old(self)@, offset, new_value, new_caret_pos);
            assert(final(self)@ =~= commit_step(old(self)@, offset, new_value, new_caret_pos));
        }
        Ok(())
    }

    /// Takes back the most recent edit, restoring the byte and the cursor
    /// position recorded before it; a no-op when nothing is left to undo.
    pub fn undo(&mut self)
        requires
            old(self).wf(),
        ensures
            final(self).wf(),
            final(self)@ == undo_step(old(self)@),
    {
        match self.undo_buffer.pop() {
            Some(rec) => {
                proof {
                    assert(old(self)@.undo.last() == rec);
                    assert(rec_valid(old(self)@.undo[old(self)@.undo.len() - 1],
                    old(self)@.bytes.len()));
                }
                let _ = self.buffer.set_byte(rec.position, rec.old_value);
                self.cursor.position = rec.old_caret_pos;
                self.redo_buffer.push(rec);
                proof {
                    crate::model::lemma_undo_preserves_wf(old(self)@);
                    assert(final(self)@ =~= undo_step(old(self)@));
                }
            },
            None => {
                proof {
                    assert(final(self)@ =~= old(self)@);
                }
            },
        }
    }

    /// Re-applies the most recently undone edit; a no-op when nothing is
    /// left to redo.
    pub fn redo(&mut self)
        requires
            old(self).wf(),
        ensures
            final(self).wf(),
            final(self)@ == redo_step(old(self)@),
    {
        match self.redo_buffer.pop() {
            Some(rec) => {
                proof {
                    assert(old(self)@.redo.last() == rec);
                    assert(rec_valid(old(self)@.redo[old(self)@.redo.len() - 1],
                    old(self)@.bytes.len()));
                }
                let _ = self.buffer.set_byte(rec.position, rec.new_value);
                self.cursor.position = rec.new_caret_pos;
                self.undo_buffer.push(rec);
                proof {
                    crate::model::lemma_redo_preserves_wf(old(self)@);
                    assert(final(self)@ =~= redo_step(old(self)@));
                }
            },
            None => {
                proof {
                    assert(final(self)@ =~= old(self)@);
                }
            },
        }
    }

    /// Types one character at the cursor, per the cursor's edit mode; see
    /// `type_char_step`. Returns whether anything changed.
    pub fn type_char(&mut self, ch: char) -> (changed: bool)
        requires
            old(self).wf(),
        ensures
            final(self).wf(),
            final(self)@ == type_char_step(old(self)@, ch),
            changed == (old(self)@.bytes.len() > 0 && (old(self)@.mode is Ascii || is_hex_digit(
                ch,
            ))),
    {
        let len = self.buffer.len();
        if len == 0 {
            proof {
                assert(final(self)@ =~= type_char_step(old(self)@, ch));
            }
            return false;
        }
        let pos = self.cursor.position / 2;
        proof {
            assert(pos < len);
        }
        match self.cursor.in_hex {
            EditMode::Hex => {
                match crate::pattern::hex_digit_of(ch) {
                    Some(d) => {
                        let old_byte = self.buffer.data[pos];
                        let new_byte: u8 = if self.cursor.position % 2 == 0 {
                            d * 16 + old_byte % 16
                        } else {
                            (old_byte / 16) * 16 + d
                        };
                        let caret = self.cursor.position + 1;
                        let _ = self.commit(pos, new_byte, caret);
                        true
                    },
                    None => {
                        proof {
                            assert(final(self)@ =~= type_char_step(old(self)@, ch));
                        }
                        false
                    },
                }
            },
            EditMode::Ascii => {
                let code = ch as u32;
                let b = (code % 256) as u8;
                let caret = pos * 2 + 2;
                let _ = self.commit(pos, b, caret);
                true
            },
        }
    }

    /// Forward search from the byte under the cursor; on a match the
    /// cursor jumps to the matched byte's high nibble and the mode stays
    /// as it was. The needle, the buffer and the stacks are never changed.
    pub fn find_next(&mut self, needle: &Vec<u8>) -> (found: bool)
        requires
            old(self).wf(),
        ensures
            final(self).wf(),
            !found ==> final(self)@ == old(self)@ && (needle@.len() == 0 || forall|j: int|
                old(self)@.cursor_pos / 2 <= j ==> !matches_at(old(self)@.bytes, needle@, j)),
            found ==> needle@.len() > 0
                && final(self)@ == cursor_moved(old(self)@, final(self)@.cursor_pos)
                && final(self)@.cursor_pos % 2 == 0
                && old(self)@.cursor_pos / 2 <= final(self)@.cursor_pos / 2
                && matches_at(old(self)@.bytes, needle@, (final(self)@.cursor_pos / 2) as int)
                && forall|j: int|
                old(self)@.cursor_pos / 2 <= j < final(self)@.cursor_pos / 2 ==> !matches_at(
                    old(self)@.bytes,
                    needle@,
                    j,
                ),
    {
        let start = self.cursor.position / 2;
        match search::find_next(&self.buffer, start, needle) {
            Some(offset) => {
                self.cursor.position = 2 * offset;
                proof {
                    assert(final(self)@ =~= cursor_moved(old(self)@, final(self)@.cursor_pos));
                }
                true
            },
            None => {
                proof {
                    assert(final(self)@ =~= old(self)@);
                }
                false
            },
        }
    }

    /// Backward search ending strictly before the byte under the cursor;
    /// on a match the cursor jumps to the matched byte's high nibble.
    pub fn find_previous(&mut self, needle: &Vec<u8>) -> (found: bool)
        requires
            old(self).wf(),
        ensures
            final(self).wf(),
            !found ==> final(self)@ == old(self)@ && (needle@.len() == 0 || forall|j: int|
                0 <= j < old(self)@.cursor_pos / 2 ==> !matches_at(old(self)@.bytes, needle@, j)),
            found ==> needle@.len() > 0
                && final(self)@ == cursor_moved(old(self)@, final(self)@.cursor_pos)
                && final(self)@.cursor_pos % 2 == 0
                && final(self)@.cursor_pos / 2 < old(self)@.cursor_pos / 2
                && matches_at(old(self)@.bytes, needle@, (final(self)@.cursor_pos / 2) as int)
                && forall|j: int|
                final(self)@.cursor_pos / 2 < j < old(self)@.cursor_pos / 2 ==> !matches_at(
                    old(self)@.bytes,
                    needle@,
                    j,
                ),
    {
        let start = self.cursor.position / 2;
        match search::find_previous(&self.buffer, start, needle) {
            Some(offset) => {
                self.cursor.position = 2 * offset;
                proof {
                    assert(final(self)@ =~= cursor_moved(old(self)@, final(self)@.cursor_pos));
                }
                true
            },
            None => {
                proof {
                    assert(final(self)@ =~= old(self)@);
                }
                false
            },
        }
    }

    /// Flips the edit mode between hex and ASCII.
    pub fn toggle_mode(&mut self)
        requires
            old(self).wf(),
        ensures
            final(self).wf(),
            final(self)@ == mode_toggled(old(self)@),
    {
        self.cursor.toggle_mode();
        proof {
            assert(final(self)@ =~= mode_toggled(old(self)@));
        }
    }

    /// Moves the cursor to `raw_position`, saturated into range.
    pub fn move_to(&mut self, raw_position: usize)
        requires
            old(self).wf(),
        ensures
            final(self).wf(),
            final(self)@ == cursor_moved(
                old(self)@,
                clamp_position(raw_position as int, old(self)@.bytes.len()),
            ),
    {
        let len = self.buffer.len();
        self.cursor.move_to(raw_position, len);
        proof {
            assert(final(self)@ =~= cursor_moved(
                old(self)@,
                clamp_position(raw_position as int, old(self)@.bytes.len()),
            ));
        }
    }

    /// One nibble left, stopping at the buffer start.
    pub fn move_left(&mut self)
        requires
            old(self).wf(),
        ensures
            final(self).wf(),
            final(self)@ == cursor_moved(
                old(self)@,
                if old(self)@.cursor_pos == 0 {
                    0nat
                } else {
                    (old(self)@.cursor_pos - 1) as nat
                },
            ),
    {
        self.cursor.move_left();
        proof {
            assert(final(self)@ =~= cursor_moved(old(self)@, final(self)@.cursor_pos));
        }
    }

    /// One nibble right, stopping at the last valid position.
    pub fn move_right(&mut self)
        requires
            old(self).wf(),
        ensures
            final(self).wf(),
            final(self)@ == cursor_moved(
                old(self)@,
                clamp_position(old(self)@.cursor_pos as int + 1, old(self)@.bytes.len()),
            ),
    {
        let len = self.buffer.len();
        self.cursor.move_right(len);
        proof {
            assert(final(self)@ =~= cursor_moved(old(self)@, final(self)@.cursor_pos));
        }
    }

    /// One row up.
    pub fn move_up(&mut self, bytes_per_row: usize)
        requires
            old(self).wf(),
        ensures
            final(self).wf(),
            final(self)@ == cursor_moved(
                old(self)@,
                if 2 * bytes_per_row <= old(self)@.cursor_pos {
                    (old(self)@.cursor_pos - 2 * bytes_per_row) as nat
                } else {
                    0nat
                },
            ),
    {
        self.cursor.move_up(bytes_per_row);
        proof {
            assert(final(self)@ =~= cursor_moved(old(self)@, final(self)@.cursor_pos));
        }
    }

    /// One row down, saturating at the last valid position.
    pub fn move_down(&mut self, bytes_per_row: usize)
        requires
            old(self).wf(),
        ensures
            final(self).wf(),
            final(self)@ == cursor_moved(
                old(self)@,
                clamp_position(
                    old(self)@.cursor_pos as int + 2 * bytes_per_row,
                    old(self)@.bytes.len(),
                ),
            ),
    {
        let len = self.buffer.len();
        self.cursor.move_down(bytes_per_row, len);
        proof {
            assert(final(self)@ =~= cursor_moved(old(self)@, final(self)@.cursor_pos));
        }
    }

    /// To the start of the current row.
    pub fn move_to_line_start(&mut self, bytes_per_row: usize)
        requires
            old(self).wf(),
            1 <= bytes_per_row <= usize::MAX / 2,
        ensures
            final(self).wf(),
            final(self)@ == cursor_moved(
                old(self)@,
                (old(self)@.cursor_pos - (old(self)@.cursor_pos as int) % (
                2 * bytes_per_row as int)) as nat,
            ),
    {
        self.cursor.move_to_line_start(bytes_per_row);
        proof {
            vstd::arithmetic::div_mod::lemma_mod_decreases(
                old(self)@.cursor_pos,
                2 * bytes_per_row as nat,
            );
            assert(final(self)@ =~= cursor_moved(old(self)@, final(self)@.cursor_pos));
        }
    }

    /// To the last byte of the current row, saturating at the last valid
    /// position.
    pub fn move_to_line_end(&mut self, bytes_per_row: usize)
        requires
            old(self).wf(),
            1 <= bytes_per_row <= usize::MAX / 2,
        ensures
            final(self).wf(),
            final(self)@ == cursor_moved(
                old(self)@,
                crate::cursor::line_end_position(
                    old(self)@.cursor_pos,
                    bytes_per_row as nat,
                    old(self)@.bytes.len(),
                ) as nat,
            ),
    {
        let len = self.buffer.len();
        self.cursor.move_to_line_end(bytes_per_row, len);
        proof {
            vstd::arithmetic::div_mod::lemma_mod_decreases(
                old(self)@.cursor_pos,
                2 * bytes_per_row as nat,
            );
            assert(final(self)@ =~= cursor_moved(old(self)@, final(self)@.cursor_pos));
        }
    }

    /// To nibble position 0.
    pub fn move_to_buffer_start(&mut self)
        requires
            old(self).wf(),
        ensures
            final(self).wf(),
            final(self)@ == cursor_moved(old(self)@, 0),
    {
        self.cursor.move_to_buffer_start();
        proof {
            assert(final(self)@ =~= cursor_moved(old(self)@, 0));
        }
    }

    /// To the high nibble of the last byte.
    pub fn move_to_buffer_end(&mut self)
        requires
            old(self).wf(),
        ensures
            final(self).wf(),
            final(self)@ == cursor_moved(
                old(self)@,
                if old(self)@.bytes.len() == 0 {
                    0nat
                } else {
                    (2 * (old(self)@.bytes.len() - 1)) as nat
                },
            ),
    {
        let len = self.buffer.len();
        self.cursor.move_to_buffer_end(len);
        proof {
            assert(final(self)@ =~= cursor_moved(old(self)@, final(self)@.cursor_pos));
        }
    }

    /// One page up: back `rows_visible` rows, stopping at the start.
    pub fn move_page_up(&mut self, bytes_per_row: usize, rows_visible: usize)
        requires
            old(self).wf(),
        ensures
            final(self).wf(),
            final(self)@ == cursor_moved(
                old(self)@,
                if 2 * bytes_per_row * rows_visible <= old(self)@.cursor_pos {
                    (old(self)@.cursor_pos - 2 * bytes_per_row * rows_visible) as nat
                } else {
                    0nat
                },
            ),
    {
        self.cursor.move_page_up(bytes_per_row, rows_visible);
        proof {
            assert(final(self)@ =~= cursor_moved(old(self)@, final(self)@.cursor_pos));
        }
    }

    /// One page down, saturating at the last valid position.
    pub fn move_page_down(&mut self, bytes_per_row: usize, rows_visible: usize)
        requires
            old(self).wf(),
        ensures
            final(self).wf(),
            final(self)@ == cursor_moved(
                old(self)@,
                clamp_position(
                    old(self)@.cursor_pos as int + 2 * bytes_per_row * rows_visible,
                    old(self)@.bytes.len(),
                ),
            ),
    {
        let len = self.buffer.len();
        self.cursor.move_page_down(bytes_per_row, rows_visible, len);
        proof {
            assert(final(self)@ =~= cursor_moved(old(self)@, final(self)@.cursor_pos));
        }
    }

    /// Sets the presentation focus flag the widget reads while painting;
    /// no part of the session model changes.
    pub fn set_focus(&mut self, focus: bool)
        requires
            old(self).wf(),
        ensures
            final(self).wf(),
            final(self)@ == old(self)@,
    {
        self.cursor.focus = focus;
        proof {
            assert(final(self)@ =~= old(self)@);
        }
    }
}

} // verus!
