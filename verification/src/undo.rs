//! The one kind of reversible edit the editor performs today: a single
//! byte replaced in place. A record carries enough to replay the edit in
//! either direction: the byte offset, the value and cursor position before
//! the edit, and the value and cursor position after it.

use vstd::prelude::*;

verus! {

/// A reversible single-byte edit. Applying it forward writes `new_value`
/// at `position` and puts the cursor at `new_caret_pos`; applying it
/// backward writes `old_value` and puts the cursor at `old_caret_pos`.
#[derive(Clone, Copy, Debug, PartialEq, Eq, Structural)]
pub struct UndoChangeByte {
    pub position: usize,
    pub old_caret_pos: usize,
    pub old_value: u8,
    pub new_caret_pos: usize,
    pub new_value: u8,
}

impl UndoChangeByte {
    pub fn new(
        position: usize,
        old_caret_pos: usize,
        old_value: u8,
        new_caret_pos: usize,
        new_value: u8,
    ) -> (r: UndoChangeByte)
        ensures
            r == (UndoChangeByte { position, old_caret_pos, old_value, new_caret_pos, new_value }),
    {
        UndoChangeByte { position, old_caret_pos, old_value, new_caret_pos, new_value }
    }
}

} // verus!
