//! The row-width solver: given the monospace cell metrics and the pixel
//! width available to the widget, it computes how many buffer bytes fit on
//! one display row. One row shows, left to right, a fixed offset column,
//! `n` hex byte cells, a fixed gap, and `n` one-character ASCII cells. The
//! solver tries `n = 2, 3, ...` until a row no longer fits and keeps the
//! last `n` that did; it never answers less than 1, so the row-relative
//! cursor arithmetic never divides by zero.

use vstd::arithmetic::div_mod::{
    lemma_div_is_ordered,
    lemma_div_multiples_vanish,
    lemma_div_nonincreasing,
    lemma_fundamental_div_mod_converse_div,
};
use vstd::prelude::*;

verus! {

/// The pixel widths the solver reads: the width of one character of the
/// monospace font, the width of one hex byte cell (two characters plus its
/// fixed padding), the fixed width of the offset column, and the fixed gap
/// between the hex and ASCII columns.
#[derive(Clone, Copy, Debug, PartialEq, Eq, Structural)]
pub struct RowMetrics {
    pub char_width: u32,
    pub cell_width: u32,
    pub offset_margin_width: u32,
    pub hex_ascii_gap: u32,
}

/// Whether a row of `n` byte cells fits in `available_width` pixels.
pub open spec fn row_fits(m: RowMetrics, available_width: int, n: int) -> bool {
    m.offset_margin_width + n * m.cell_width + m.hex_ascii_gap + n * m.char_width
        <= available_width
}

/// The bytes-per-row count: the largest `n >= 2` whose row fits, and 1
/// when not even two byte cells fit.
pub open spec fn spec_bytes_per_row(m: RowMetrics, available_width: int) -> int {
    if m.cell_width + m.char_width >= 1 && row_fits(m, available_width, 2) {
        (available_width - m.offset_margin_width - m.hex_ascii_gap) / (m.cell_width
            + m.char_width)
    } else {
        1
    }
}

/// Computes the bytes-per-row count for the given metrics and available
/// width, by widening the trial count until the row no longer fits.
pub fn bytes_per_row(m: RowMetrics, available_width: u32) -> (n: usize)
    requires
        m.cell_width + m.char_width >= 1,
    ensures
        n == spec_bytes_per_row(m, available_width as int),
        n >= 1,
{
    let mw: u64 = m.offset_margin_width as u64;
    let gw: u64 = m.hex_ascii_gap as u64;
    let cw: u64 = m.cell_width as u64;
    let chw: u64 = m.char_width as u64;
    let aw: u64 = available_width as u64;
    let mut i: u64 = 2;
    loop
        invariant
            2 <= i <= aw + 2,
            cw == m.cell_width,
            chw == m.char_width,
            mw == m.offset_margin_width,
            gw == m.hex_ascii_gap,
            aw == available_width,
            cw + chw >= 1,
            i > 2 ==> row_fits(m, aw as int, i - 1),
        decreases aw + 2 - i,
    {
        proof {
            assert((i - 1) * cw + cw == i * cw && (i - 1) * chw + chw == i * chw
                && (i - 1) * cw >= 0 && (i - 1) * chw >= 0) by (nonlinear_arith)
                requires
                    i >= 2,
                    cw >= 0,
                    chw >= 0,
            ;
        }
        let hex_width: u64 = i * cw;
        let text_width: u64 = i * chw;
        if mw + hex_width + gw + text_width > aw {
            proof {
                if i > 2 {
                    assert((i - 1) * cw + (i - 1) * chw == (i - 1) * (cw + chw)) by (nonlinear_arith);
                    assert(i * cw + i * chw == i * (cw + chw)) by (nonlinear_arith);
                    assert(2 * (cw + chw) <= (i - 1) * (cw + chw)) by (nonlinear_arith)
                        requires
                            i >= 3,
                            cw + chw >= 0,
                    ;
                    assert(i - 1 <= (i - 1) * (cw + chw)) by (nonlinear_arith)
                        requires
                            i >= 2,
                            cw + chw >= 1,
                    ;
                    let d: int = cw + chw;
                    let rest: int = aw - mw - gw;
                    assert((i - 1) * d <= rest < i * d);
                    lemma_fundamental_div_mod_converse_div(rest, d, i - 1, rest - (i - 1) * d);
                }
            }
            return (i - 1) as usize;
        }
        proof {
            assert(i * cw + i * chw == i * (cw + chw)) by (nonlinear_arith);
            assert(i <= i * (cw + chw)) by (nonlinear_arith)
                requires
                    i >= 2,
                    cw + chw >= 1,
            ;
        }
        i = i + 1;
    }
}

/// The solver never answers less than one byte per row.
pub proof fn lemma_bytes_per_row_at_least_one(m: RowMetrics, available_width: int)
    ensures
        spec_bytes_per_row(m, available_width) >= 1,
{
    if m.cell_width + m.char_width >= 1 && row_fits(m, available_width, 2) {
        let d: int = m.cell_width + m.char_width;
        let rest: int = available_width - m.offset_margin_width - m.hex_ascii_gap;
        assert(2 * d <= rest);
        lemma_div_is_ordered(2 * d, rest, d);
        lemma_div_multiples_vanish(2, d);
    }
}

/// For fixed metrics the solver is monotonically non-decreasing in the
/// available width: widening the viewport never shows fewer bytes per row.
pub proof fn lemma_bytes_per_row_monotonic(m: RowMetrics, narrower: int, wider: int)
    requires
        narrower <= wider,
    ensures
        spec_bytes_per_row(m, narrower) <= spec_bytes_per_row(m, wider),
{
    if m.cell_width + m.char_width >= 1 && row_fits(m, narrower, 2) {
        let d: int = m.cell_width + m.char_width;
        lemma_div_is_ordered(
            narrower - m.offset_margin_width - m.hex_ascii_gap,
            wider - m.offset_margin_width - m.hex_ascii_gap,
            d,
        );
    } else {
        lemma_bytes_per_row_at_least_one(m, wider);
    }
}

/// How many display rows a buffer of `len` bytes occupies (the widget
/// always shows one row past the full ones).
pub fn total_rows(len: usize, bytes_per_row: usize) -> (rows: usize)
    requires
        1 <= bytes_per_row,
        len < usize::MAX,
    ensures
        rows == len as int / bytes_per_row as int + 1,
{
    proof {
        lemma_div_nonincreasing(len as int, bytes_per_row as int);
    }
    len / bytes_per_row + 1
}

/// The display row that holds the nibble position `position`.
pub fn row_of_position(position: usize, bytes_per_row: usize) -> (row: usize)
    requires
        1 <= bytes_per_row <= usize::MAX / 2,
    ensures
        row == position as int / (2 * bytes_per_row as int),
{
    position / (2 * bytes_per_row)
}

} // verus!
