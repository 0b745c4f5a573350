//! Bookkeeping of the parallel frame renderer: the row-major layout of
//! the frame buffer and the disjointness of the per-row slices that
//! makes the row-partitioned fill race-free.

use vstd::prelude::*;

verus! {

/// The buffer cell of pixel `(row, col)` in a row-major grid `cols`
/// wide.
pub open spec fn spec_pixel_index(row: int, col: int, cols: int) -> int {
    row * cols + col
}

/// The buffer cell of pixel `(row, col)`: row-major order, rows first.
pub fn pixel_index(row: usize, col: usize, cols: usize) -> (i: usize)
    requires
        col < cols,
        (row + 1) * cols <= usize::MAX,
    ensures
        i == spec_pixel_index(row as int, col as int, cols as int),
{
    proof {
        assert((row + 1) * cols == row * cols + cols) by (nonlinear_arith);
    }
    row * cols + col
}

/// Distinct pixels occupy distinct buffer cells: row-major indexing is
/// injective over the grid.
pub proof fn lemma_pixel_index_injective(r1: int, c1: int, r2: int, c2: int, cols: int)
    requires
        0 <= c1 < cols,
        0 <= c2 < cols,
        0 <= r1,
        0 <= r2,
        (r1, c1) != (r2, c2),
    ensures
        spec_pixel_index(r1, c1, cols) != spec_pixel_index(r2, c2, cols),
{
    if r1 == r2 {
    } else if r1 < r2 {
        lemma_row_ranges_ordered(r1, r2, cols);
    } else {
        lemma_row_ranges_ordered(r2, r1, cols);
    }
}

/// Each image row owns the cells `[row * cols, row * cols + cols)`, and
/// an earlier row's range ends before a later row's begins: the rows
/// partition the buffer into disjoint slices, so tasks that each write
/// one row never write the same cell. This is the write discipline the
/// parallel renderer relies on in place of locking.
pub proof fn lemma_row_ranges_ordered(r1: int, r2: int, cols: int)
    requires
        0 <= r1 < r2,
        0 < cols,
    ensures
        r1 * cols + cols <= r2 * cols,
{
    assert(r1 * cols + cols == (r1 + 1) * cols) by (nonlinear_arith);
    assert((r1 + 1) * cols <= r2 * cols) by (nonlinear_arith)
        requires
            0 <= r1,
            r1 + 1 <= r2,
            0 < cols,
    {
    }
}

} // verus!
