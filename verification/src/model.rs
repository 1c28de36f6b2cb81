//! The mathematical model of an editing session, and the laws proved over
//! it. Every mutating method of `EditSession` states its effect as one of
//! the step functions below, so the round-trip laws proved here carry over
//! to the executable code.

use crate::cursor::{clamp_position, max_position, EditMode};
use crate::pattern::{hex_digit_value, is_hex_digit};
use crate::undo::UndoChangeByte;
use vstd::prelude::*;

verus! {

/// The abstract state of one editing session: the buffer bytes, the
/// cursor's nibble position and edit mode, the two history stacks (the
/// last element of each is its top), and the undo depth recorded by the
/// last successful save.
#[verifier::ext_equal]
pub struct SessionView {
    pub bytes: Seq<u8>,
    pub cursor_pos: nat,
    pub mode: EditMode,
    pub undo: Seq<UndoChangeByte>,
    pub redo: Seq<UndoChangeByte>,
    pub saved_depth: nat,
}

/// A session is dirty exactly when the undo depth differs from the depth
/// recorded at the last save; dirtiness is structural, never a content
/// comparison.
pub open spec fn session_dirty(v: SessionView) -> bool {
    v.undo.len() != v.saved_depth
}

/// An edit record whose offset and cursor positions lie inside a buffer
/// of `len` bytes.
pub open spec fn rec_valid(r: UndoChangeByte, len: nat) -> bool {
    &&& r.position < len
    &&& r.old_caret_pos <= max_position(len)
    &&& r.new_caret_pos <= max_position(len)
}

/// The undo stack replays backward from `bytes`: the top record's new
/// value is what the buffer holds at its offset, and below it the rest of
/// the stack is consistent with the buffer as it was before that edit.
pub open spec fn undo_consistent(bytes: Seq<u8>, undo: Seq<UndoChangeByte>) -> bool
    decreases undo.len(),
{
    undo.len() == 0 || {
        let r = undo.last();
        &&& r.position < bytes.len()
        &&& bytes[r.position as int] == r.new_value
        &&& undo_consistent(bytes.update(r.position as int, r.old_value), undo.drop_last())
    }
}

/// The redo stack replays forward from `bytes`: the top record's old value
/// is what the buffer holds at its offset, and below it the rest of the
/// stack is consistent with the buffer as it will be after that edit.
pub open spec fn redo_consistent(bytes: Seq<u8>, redo: Seq<UndoChangeByte>) -> bool
    decreases redo.len(),
{
    redo.len() == 0 || {
        let r = redo.last();
        &&& r.position < bytes.len()
        &&& bytes[r.position as int] == r.old_value
        &&& redo_consistent(bytes.update(r.position as int, r.new_value), redo.drop_last())
    }
}

/// Well-formedness of a session: the buffer is addressable in nibble
/// units, the cursor and every recorded position are in range, and both
/// history stacks replay consistently against the buffer.
pub open spec fn session_wf(v: SessionView) -> bool {
    &&& 2 * v.bytes.len() <= usize::MAX
    &&& v.cursor_pos <= max_position(v.bytes.len())
    &&& forall|k: int| 0 <= k < v.undo.len() ==> rec_valid(#[trigger] v.undo[k], v.bytes.len())
    &&& forall|k: int| 0 <= k < v.redo.len() ==> rec_valid(#[trigger] v.redo[k], v.bytes.len())
    &&& undo_consistent(v.bytes, v.undo)
    &&& redo_consistent(v.bytes, v.redo)
}

/// The session with only the cursor position changed.
pub open spec fn cursor_moved(v: SessionView, pos: nat) -> SessionView {
    SessionView { cursor_pos: pos, ..v }
}

/// The session with the edit mode flipped.
pub open spec fn mode_toggled(v: SessionView) -> SessionView {
    SessionView {
        mode: if v.mode is Hex {
            EditMode::Ascii
        } else {
            EditMode::Hex
        },
        ..v
    }
}

/// The session after a successful save: the current undo depth becomes
/// the saved depth; the stacks themselves are untouched.
pub open spec fn mark_saved_step(v: SessionView) -> SessionView {
    SessionView { saved_depth: v.undo.len(), ..v }
}

/// The session after committing an edit: the new value is applied at once,
/// the cursor jumps to `new_caret_pos` (saturated into range), the record
/// goes onto the undo stack, and the redo stack is cleared.
pub open spec fn commit_step(
    v: SessionView,
    offset: usize,
    new_value: u8,
    new_caret_pos: usize,
) -> SessionView
    recommends
        offset < v.bytes.len(),
{
    let caret = clamp_position(new_caret_pos as int, v.bytes.len());
    let rec = UndoChangeByte {
        position: offset,
        old_caret_pos: v.cursor_pos as usize,
        old_value: v.bytes[offset as int],
        new_caret_pos: caret as usize,
        new_value,
    };
    SessionView {
        bytes: v.bytes.update(offset as int, new_value),
        cursor_pos: caret,
        mode: v.mode,
        undo: v.undo.push(rec),
        redo: Seq::empty(),
        saved_depth: v.saved_depth,
    }
}

/// The session after one undo: a no-op on an empty undo stack; otherwise
/// the top record's old value and old cursor position are restored and the
/// record moves to the redo stack.
pub open spec fn undo_step(v: SessionView) -> SessionView {
    if v.undo.len() == 0 {
        v
    } else {
        let r = v.undo.last();
        SessionView {
            bytes: v.bytes.update(r.position as int, r.old_value),
            cursor_pos: r.old_caret_pos as nat,
            mode: v.mode,
            undo: v.undo.drop_last(),
            redo: v.redo.push(r),
            saved_depth: v.saved_depth,
        }
    }
}

/// The session after one redo: a no-op on an empty redo stack; otherwise
/// the top record's new value and new cursor position are re-applied and
/// the record moves back to the undo stack.
pub open spec fn redo_step(v: SessionView) -> SessionView {
    if v.redo.len() == 0 {
        v
    } else {
        let r = v.redo.last();
        SessionView {
            bytes: v.bytes.update(r.position as int, r.new_value),
            cursor_pos: r.new_caret_pos as nat,
            mode: v.mode,
            undo: v.undo.push(r),
            redo: v.redo.drop_last(),
            saved_depth: v.saved_depth,
        }
    }
}

/// What typing `ch` does: in `Hex` mode a hex digit replaces the nibble
/// under the cursor and the cursor advances one nibble; any other
/// character is ignored. In `Ascii` mode the low eight bits of `ch`
/// replace the whole byte and the cursor advances to the next byte. On an
/// empty buffer nothing happens.
pub open spec fn type_char_step(v: SessionView, ch: char) -> SessionView {
    if v.bytes.len() == 0 {
        v
    } else {
        let pos = v.cursor_pos / 2;
        if v.mode is Hex {
            if is_hex_digit(ch) {
                let d = hex_digit_value(ch);
                let old_byte = v.bytes[pos as int];
                let new_byte = if v.cursor_pos % 2 == 0 {
                    (d * 16 + old_byte % 16) as u8
                } else {
                    (old_byte / 16 * 16 + d) as u8
                };
                commit_step(v, pos as usize, new_byte, (v.cursor_pos + 1) as usize)
            } else {
                v
            }
        } else {
            commit_step(v, pos as usize, ((ch as u32) % 256) as u8, (pos * 2 + 2) as usize)
        }
    }
}

/// Committing a valid edit keeps the session well-formed.
pub proof fn lemma_commit_preserves_wf(v: SessionView, offset: usize, new_value: u8, caret: usize)
    requires
        session_wf(v),
        offset < v.bytes.len(),
    ensures
        session_wf(commit_step(v, offset, new_value, caret)),
{
    let w = commit_step(v, offset, new_value, caret);
    assert(w.bytes.update(offset as int, v.bytes[offset as int]) =~= v.bytes);
    assert(w.undo.drop_last() =~= v.undo);
    assert forall|k: int| 0 <= k < w.undo.len() implies rec_valid(
        #[trigger] w.undo[k],
        w.bytes.len(),
    ) by {
        if k < v.undo.len() {
            assert(w.undo[k] == v.undo[k]);
        }
    }
}

/// One undo keeps the session well-formed.
pub proof fn lemma_undo_preserves_wf(v: SessionView)
    requires
        session_wf(v),
    ensures
        session_wf(undo_step(v)),
{
    if v.undo.len() > 0 {
        let r = v.undo.last();
        let w = undo_step(v);
        assert(rec_valid(v.undo[v.undo.len() - 1], v.bytes.len()));
        assert(w.bytes.update(r.position as int, r.new_value) =~= v.bytes);
        assert(w.redo.drop_last() =~= v.redo);
        assert forall|k: int| 0 <= k < w.undo.len() implies rec_valid(
            #[trigger] w.undo[k],
            w.bytes.len(),
        ) by {
            assert(w.undo[k] == v.undo[k]);
        }
        assert forall|k: int| 0 <= k < w.redo.len() implies rec_valid(
            #[trigger] w.redo[k],
            w.bytes.len(),
        ) by {
            if k < v.redo.len() {
                assert(w.redo[k] == v.redo[k]);
            } else {
                assert(w.redo[k] == r);
            }
        }
    }
}

/// One redo keeps the session well-formed.
pub proof fn lemma_redo_preserves_wf(v: SessionView)
    requires
        session_wf(v),
    ensures
        session_wf(redo_step(v)),
{
    if v.redo.len() > 0 {
        let r = v.redo.last();
        let w = redo_step(v);
        assert(rec_valid(v.redo[v.redo.len() - 1], v.bytes.len()));
        assert(w.bytes.update(r.position as int, r.old_value) =~= v.bytes);
        assert(w.undo.drop_last() =~= v.undo);
        assert forall|k: int| 0 <= k < w.redo.len() implies rec_valid(
            #[trigger] w.redo[k],
            w.bytes.len(),
        ) by {
            assert(w.redo[k] == v.redo[k]);
        }
        assert forall|k: int| 0 <= k < w.undo.len() implies rec_valid(
            #[trigger] w.undo[k],
            w.bytes.len(),
        ) by {
            if k < v.undo.len() {
                assert(w.undo[k] == v.undo[k]);
            } else {
                assert(w.undo[k] == r);
            }
        }
    }
}

/// An undo immediately followed by a redo restores the whole session: the
/// buffer bytes, the cursor position, both stacks and the saved depth.
/// This needs the cursor to still sit where the last edit left it (as it
/// does right after a commit or a redo) and at least one edit on the undo
/// stack; an undo of nothing followed by a redo of something is not a
/// round trip.
pub proof fn lemma_undo_then_redo(v: SessionView)
    requires
        session_wf(v),
        v.undo.len() > 0,
        v.cursor_pos == v.undo.last().new_caret_pos,
    ensures
        redo_step(undo_step(v)) == v,
{
    let r = v.undo.last();
    let u = undo_step(v);
    let w = redo_step(u);
    assert(rec_valid(v.undo[v.undo.len() - 1], v.bytes.len()));
    assert(u.redo.last() == r);
    assert(w.bytes =~= v.bytes);
    assert(w.undo =~= v.undo);
    assert(w.redo =~= v.redo);
    assert(w =~= v);
}

/// The commits described by `edits` applied in order: each entry is an
/// offset, the value written there, and the caret position requested
/// after the edit.
pub open spec fn apply_commits(v: SessionView, edits: Seq<(usize, u8, usize)>) -> SessionView
    decreases edits.len(),
{
    if edits.len() == 0 {
        v
    } else {
        commit_step(
            apply_commits(v, edits.drop_last()),
            edits.last().0,
            edits.last().1,
            edits.last().2,
        )
    }
}

/// `n` undos applied in order.
pub open spec fn apply_undos(v: SessionView, n: nat) -> SessionView
    decreases n,
{
    if n == 0 {
        v
    } else {
        apply_undos(undo_step(v), (n - 1) as nat)
    }
}

/// Committing at valid offsets never changes the buffer's length.
proof fn lemma_apply_commits_len(v: SessionView, edits: Seq<(usize, u8, usize)>)
    requires
        forall|k: int| 0 <= k < edits.len() ==> (#[trigger] edits[k]).0 < v.bytes.len(),
    ensures
        apply_commits(v, edits).bytes.len() == v.bytes.len(),
    decreases edits.len(),
{
    if edits.len() > 0 {
        let prev = edits.drop_last();
        assert(forall|k: int| 0 <= k < prev.len() ==> (#[trigger] prev[k]).0 < v.bytes.len());
        lemma_apply_commits_len(v, prev);
    }
}

/// Undoing reads only the buffer, the cursor and the undo stack, so two
/// sessions agreeing on those three keep agreeing on them under undos.
proof fn lemma_apply_undos_congruent(a: SessionView, b: SessionView, n: nat)
    requires
        a.bytes == b.bytes,
        a.cursor_pos == b.cursor_pos,
        a.undo == b.undo,
    ensures
        apply_undos(a, n).bytes == apply_undos(b, n).bytes,
        apply_undos(a, n).cursor_pos == apply_undos(b, n).cursor_pos,
        apply_undos(a, n).undo == apply_undos(b, n).undo,
    decreases n,
{
    if n > 0 {
        lemma_apply_undos_congruent(undo_step(a), undo_step(b), (n - 1) as nat);
    }
}

/// The undo round-trip law: any sequence of edits followed by as many
/// undos returns the buffer bytes and the cursor position exactly to
/// their values before the first edit.
pub proof fn lemma_commits_then_undos(v: SessionView, edits: Seq<(usize, u8, usize)>)
    requires
        2 * v.bytes.len() <= usize::MAX,
        v.cursor_pos <= max_position(v.bytes.len()),
        forall|k: int| 0 <= k < edits.len() ==> (#[trigger] edits[k]).0 < v.bytes.len(),
    ensures
        apply_undos(apply_commits(v, edits), edits.len()).bytes == v.bytes,
        apply_undos(apply_commits(v, edits), edits.len()).cursor_pos == v.cursor_pos,
        apply_undos(apply_commits(v, edits), edits.len()).undo == v.undo,
    decreases edits.len(),
{
    if edits.len() > 0 {
        let prev = edits.drop_last();
        let e = edits.last();
        let a = apply_commits(v, prev);
        lemma_apply_commits_len(v, prev);
        let c = apply_commits(v, edits);
        let u = undo_step(c);
        assert(u.bytes =~= a.bytes);
        assert(u.undo =~= a.undo);
        if prev.len() == 0 {
            assert(a == v);
        }
        assert(u.cursor_pos == a.cursor_pos);
        lemma_apply_undos_congruent(u, a, prev.len());
        assert(forall|k: int| 0 <= k < prev.len() ==> (#[trigger] prev[k]).0 < v.bytes.len());
        lemma_commits_then_undos(v, prev);
        assert(apply_undos(c, edits.len()) == apply_undos(u, prev.len()));
    }
}

/// Walks the chain condition of `lemma_clean_until_next_commit` down to
/// any single state.
proof fn lemma_clean_chain(states: Seq<SessionView>, k: int)
    requires
        states.len() > 0,
        !session_dirty(states[0]),
        forall|j: int|
            0 < j < states.len() ==> (#[trigger] states[j]).undo == states[j - 1].undo
                && states[j].saved_depth == states[j - 1].saved_depth,
        0 <= k < states.len(),
    ensures
        !session_dirty(states[k]),
    decreases k,
{
    if k > 0 {
        lemma_clean_chain(states, k - 1);
    }
}

/// The dirty flag after a save: `mark_saved` leaves the session clean, and
/// it stays clean across any run of operations that leave the undo stack
/// and the saved depth unchanged — which every session operation except
/// commit, undo and redo does (their contracts say so).
pub proof fn lemma_clean_until_next_commit(v: SessionView, later: Seq<SessionView>)
    requires
        later.len() > 0 ==> later[0] == mark_saved_step(v),
        forall|j: int|
            0 < j < later.len() ==> (#[trigger] later[j]).undo == later[j - 1].undo
                && later[j].saved_depth == later[j - 1].saved_depth,
    ensures
        !session_dirty(mark_saved_step(v)),
        forall|k: int| 0 <= k < later.len() ==> !session_dirty(#[trigger] later[k]),
{
    assert forall|k: int| 0 <= k < later.len() implies !session_dirty(#[trigger] later[k]) by {
        lemma_clean_chain(later, k);
    }
}

} // verus!
