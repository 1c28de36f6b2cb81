use cosmic_hex::layout::{bytes_per_row, row_of_position, total_rows, RowMetrics};

fn metrics(char_width: u32) -> RowMetrics {
    // The widths the widget derives from one character cell: a byte cell
    // is two characters plus 5px padding, the offset column is eight
    // characters plus 10px, and 5px sits between the hex and ASCII columns.
    RowMetrics {
        char_width,
        cell_width: 2 * char_width + 5,
        offset_margin_width: 8 * char_width + 10,
        hex_ascii_gap: 5,
    }
}

#[test]
fn solver_exact_value() {
    // char 8px: cell 21, margin 74, gap 5. At 400px the largest n with
    // 74 + 21n + 5 + 8n <= 400 is 11 (398px used; n = 12 needs 427).
    assert_eq!(bytes_per_row(metrics(8), 400), 11);
}

#[test]
fn solver_boundary_is_tight() {
    assert_eq!(bytes_per_row(metrics(8), 398), 11);
    assert_eq!(bytes_per_row(metrics(8), 397), 10);
}

#[test]
fn solver_never_below_one() {
    // Nothing fits in a zero-width viewport; the answer is still 1.
    assert_eq!(bytes_per_row(metrics(8), 0), 1);
    assert_eq!(bytes_per_row(metrics(8), 100), 1);
    assert_eq!(bytes_per_row(metrics(1000), 50), 1);
}

#[test]
fn solver_monotonic_in_width() {
    let m = metrics(8);
    let mut previous = bytes_per_row(m, 0);
    for width in (0..2000).step_by(37) {
        let n = bytes_per_row(m, width);
        assert!(n >= previous);
        assert!(n >= 1);
        previous = n;
    }
}

#[test]
fn total_rows_counts_partial_row() {
    assert_eq!(total_rows(0, 4), 1);
    assert_eq!(total_rows(10, 4), 3);
    assert_eq!(total_rows(8, 4), 3);
}

#[test]
fn row_of_position_uses_nibble_pairs() {
    assert_eq!(row_of_position(0, 4), 0);
    assert_eq!(row_of_position(7, 4), 0);
    assert_eq!(row_of_position(8, 4), 1);
    assert_eq!(row_of_position(18, 4), 2);
}
