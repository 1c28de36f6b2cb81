//! The cursor and address model. A cursor position is measured in nibble
//! units: two consecutive positions address the high and low half of one
//! byte. Every movement saturates into the valid range `[0, 2*len - 1]`
//! (`0` for an empty buffer); nothing wraps and nothing fails.

use vstd::prelude::*;

verus! {

/// Which column the cursor edits. In `Hex` mode a keystroke replaces one
/// nibble; in `Ascii` mode it replaces the whole byte. The position still
/// advances in nibble units in both modes.
#[derive(Clone, Copy, Debug, Default, PartialEq, Eq, Structural)]
pub enum EditMode {
    #[default]
    Hex,
    Ascii,
}

/// The cursor of one editing session: a nibble position plus the edit
/// mode, and the two presentation flags the widget reads.
#[derive(Clone, Copy, Debug, Default, PartialEq, Eq, Structural)]
pub struct Cursor {
    pub position: usize,
    pub blink: bool,
    pub focus: bool,
    pub in_hex: EditMode,
}

/// The largest valid nibble position for a buffer of `len` bytes.
pub open spec fn max_position(len: nat) -> nat {
    if len == 0 {
        0
    } else {
        (2 * len - 1) as nat
    }
}

/// `raw` saturated into the valid nibble range for a buffer of `len` bytes.
pub open spec fn clamp_position(raw: int, len: nat) -> nat {
    if raw > max_position(len) {
        max_position(len)
    } else if raw < 0 {
        0
    } else {
        raw as nat
    }
}

/// The nibble position at which the row holding `pos` ends (the high
/// nibble of the row's last byte), saturated to the buffer's range.
pub open spec fn line_end_position(pos: nat, bytes_per_row: nat, len: nat) -> int {
    let row = 2 * bytes_per_row;
    let start = pos - pos % row;
    if start + row - 2 > max_position(len) {
        max_position(len) as int
    } else {
        start + row - 2
    }
}

impl Cursor {
    /// Clamps `raw_position` into the valid range and moves there.
    pub fn move_to(&mut self, raw_position: usize, len: usize)
        requires
            len <= usize::MAX / 2,
        ensures
            final(self).position == clamp_position(raw_position as int, len as nat),
            final(self).blink == old(self).blink,
            final(self).focus == old(self).focus,
            final(self).in_hex == old(self).in_hex,
    {
        let maxp: usize = if len == 0 {
            0
        } else {
            2 * len - 1
        };
        self.position = if raw_position > maxp {
            maxp
        } else {
            raw_position
        };
    }

    /// One nibble to the left, stopping at the start of the buffer.
    pub fn move_left(&mut self)
        ensures
            final(self).position == if old(self).position == 0 {
                0int
            } else {
                old(self).position - 1
            },
            final(self).blink == old(self).blink,
            final(self).focus == old(self).focus,
            final(self).in_hex == old(self).in_hex,
    {
        if self.position > 0 {
            self.position = self.position - 1;
        }
    }

    /// One nibble to the right, stopping at the last valid position.
    pub fn move_right(&mut self, len: usize)
        requires
            len <= usize::MAX / 2,
        ensures
            final(self).position == clamp_position(old(self).position + 1, len as nat),
            final(self).blink == old(self).blink,
            final(self).focus == old(self).focus,
            final(self).in_hex == old(self).in_hex,
    {
        let maxp: usize = if len == 0 {
            0
        } else {
            2 * len - 1
        };
        if self.position >= maxp {
            self.position = maxp;
        } else {
            self.position = self.position + 1;
        }
    }

    /// One row up: back by `bytes_per_row` bytes, stopping at the start.
    pub fn move_up(&mut self, bytes_per_row: usize)
        ensures
            final(self).position == if 2 * bytes_per_row <= old(self).position {
                old(self).position - 2 * bytes_per_row
            } else {
                0int
            },
            final(self).blink == old(self).blink,
            final(self).focus == old(self).focus,
            final(self).in_hex == old(self).in_hex,
    {
        if bytes_per_row <= self.position / 2 {
            self.position = self.position - 2 * bytes_per_row;
        } else {
            self.position = 0;
        }
    }

    /// One row down: forward by `bytes_per_row` bytes, saturating at the
    /// last valid position.
    pub fn move_down(&mut self, bytes_per_row: usize, len: usize)
        requires
            len <= usize::MAX / 2,
        ensures
            final(self).position == clamp_position(
                old(self).position + 2 * bytes_per_row,
                len as nat,
            ),
            final(self).blink == old(self).blink,
            final(self).focus == old(self).focus,
            final(self).in_hex == old(self).in_hex,
    {
        let maxp: usize = if len == 0 {
            0
        } else {
            2 * len - 1
        };
        if self.position >= maxp {
            self.position = maxp;
        } else {
            let room: usize = maxp - self.position;
            if bytes_per_row <= room / 2 {
                self.position = self.position + 2 * bytes_per_row;
            } else {
                self.position = maxp;
            }
        }
    }

    /// To the high nibble of the first byte of the current row.
    pub fn move_to_line_start(&mut self, bytes_per_row: usize)
        requires
            1 <= bytes_per_row <= usize::MAX / 2,
        ensures
            final(self).position == old(self).position - (old(self).position as int) % (
            2 * bytes_per_row as int),
            final(self).blink == old(self).blink,
            final(self).focus == old(self).focus,
            final(self).in_hex == old(self).in_hex,
    {
        let row: usize = 2 * bytes_per_row;
        proof {
            vstd::arithmetic::div_mod::lemma_mod_decreases(self.position as nat, row as nat);
        }
        self.position = self.position - self.position % row;
    }

    /// To the high nibble of the last byte of the current row, saturating
    /// at the last valid position.
    pub fn move_to_line_end(&mut self, bytes_per_row: usize, len: usize)
        requires
            1 <= bytes_per_row <= usize::MAX / 2,
            len <= usize::MAX / 2,
            old(self).position <= max_position(len as nat),
        ensures
            final(self).position == line_end_position(
                old(self).position as nat,
                bytes_per_row as nat,
                len as nat,
            ),
            final(self).blink == old(self).blink,
            final(self).focus == old(self).focus,
            final(self).in_hex == old(self).in_hex,
    {
        let row: usize = 2 * bytes_per_row;
        proof {
            vstd::arithmetic::div_mod::lemma_mod_decreases(self.position as nat, row as nat);
        }
        let start: usize = self.position - self.position % row;
        let maxp: usize = if len == 0 {
            0
        } else {
            2 * len - 1
        };
        if row - 2 > maxp - start {
            self.position = maxp;
        } else {
            self.position = start + row - 2;
        }
    }

    /// To nibble position 0.
    pub fn move_to_buffer_start(&mut self)
        ensures
            final(self).position == 0,
            final(self).blink == old(self).blink,
            final(self).focus == old(self).focus,
            final(self).in_hex == old(self).in_hex,
    {
        self.position = 0;
    }

    /// To the high nibble of the buffer's last byte.
    pub fn move_to_buffer_end(&mut self, len: usize)
        requires
            len <= usize::MAX / 2,
        ensures
            final(self).position == if len == 0 {
                0int
            } else {
                2 * (len - 1)
            },
            final(self).blink == old(self).blink,
            final(self).focus == old(self).focus,
            final(self).in_hex == old(self).in_hex,
    {
        if len == 0 {
            self.position = 0;
        } else {
            self.position = 2 * (len - 1);
        }
    }

    /// One page up: back by `rows_visible` rows, stopping at the start.
    pub fn move_page_up(&mut self, bytes_per_row: usize, rows_visible: usize)
        ensures
            final(self).position == if 2 * bytes_per_row * rows_visible <= old(self).position {
                old(self).position - 2 * bytes_per_row * rows_visible
            } else {
                0int
            },
            final(self).blink == old(self).blink,
            final(self).focus == old(self).focus,
            final(self).in_hex == old(self).in_hex,
    {
        proof {
            assert(2 * (bytes_per_row as int) * (rows_visible as int) == 2 * ((
            bytes_per_row as int) * (rows_visible as int))) by (nonlinear_arith);
        }
        match bytes_per_row.checked_mul(rows_visible) {
            Some(cells) => {
                if cells <= self.position / 2 {
                    self.position = self.position - 2 * cells;
                } else {
                    self.position = 0;
                }
            },
            None => {
                self.position = 0;
            },
        }
    }

    /// One page down: forward by `rows_visible` rows, saturating at the
    /// last valid position.
    pub fn move_page_down(&mut self, bytes_per_row: usize, rows_visible: usize, len: usize)
        requires
            len <= usize::MAX / 2,
        ensures
            final(self).position == clamp_position(
                old(self).position + 2 * bytes_per_row * rows_visible,
                len as nat,
            ),
            final(self).blink == old(self).blink,
            final(self).focus == old(self).focus,
            final(self).in_hex == old(self).in_hex,
    {
        let maxp: usize = if len == 0 {
            0
        } else {
            2 * len - 1
        };
        proof {
            assert(2 * (bytes_per_row as int) * (rows_visible as int) == 2 * ((
            bytes_per_row as int) * (rows_visible as int))) by (nonlinear_arith);
        }
        if self.position >= maxp {
            self.position = maxp;
        } else {
            let room: usize = maxp - self.position;
            match bytes_per_row.checked_mul(rows_visible) {
                Some(cells) => {
                    if cells <= room / 2 {
                        self.position = self.position + 2 * cells;
                    } else {
                        self.position = maxp;
                    }
                },
                None => {
                    self.position = maxp;
                },
            }
        }
    }

    /// Flips between `Hex` and `Ascii` editing.
    pub fn toggle_mode(&mut self)
        ensures
            final(self).in_hex == if old(self).in_hex is Hex {
                EditMode::Ascii
            } else {
                EditMode::Hex
            },
            final(self).position == old(self).position,
            final(self).blink == old(self).blink,
            final(self).focus == old(self).focus,
    {
        self.in_hex = match self.in_hex {
            EditMode::Hex => EditMode::Ascii,
            EditMode::Ascii => EditMode::Hex,
        };
    }
}

} // verus!
