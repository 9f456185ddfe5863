//! A grid of on/off cells that a click toggles.

use vstd::prelude::*;

verus! {

/// The column (or row) that a coordinate falls in, for cells `cell_size`
/// wide that start at the origin. Coordinates before the origin count as the
/// first cell.
pub open spec fn cell_of(coord: int, cell_size: int) -> int {
    if coord <= 0 {
        0
    } else {
        coord / cell_size
    }
}

/// The index, row by row, of the cell under the pointer; `None` when the
/// pointer is past the last column or row.
pub open spec fn clicked_cell(cols: int, rows: int, cell_size: int, pointer: (i32, i32)) -> Option<
    int,
> {
    let col = cell_of(pointer.0 as int, cell_size);
    let row = cell_of(pointer.1 as int, cell_size);
    if col < cols && row < rows {
        Some(row * cols + col)
    } else {
        None
    }
}

fn cell_index(coord: i32, cell_size: i32) -> (cell: usize)
    requires
        cell_size > 0,
    ensures
        cell == cell_of(coord as int, cell_size as int),
{
    if coord <= 0 {
        0
    } else {
        (coord / cell_size) as usize
    }
}

/// Toggles the cell under the pointer on the frame the button goes down.
/// The grid holds `rows` rows of `cols` cells, row by row.
pub fn handle_grid_click(
    grid: &mut Vec<bool>,
    cols: usize,
    rows: usize,
    cell_size: i32,
    pointer: (i32, i32),
    pressed: bool,
)
    requires
        cell_size > 0,
        pressed ==> (clicked_cell(cols as int, rows as int, cell_size as int, pointer) matches Some(
            idx,
        ) ==> idx < old(grid)@.len()),
    ensures
        final(grid)@ == if pressed {
            match clicked_cell(cols as int, rows as int, cell_size as int, pointer) {
                Some(idx) => old(grid)@.update(idx, !old(grid)@[idx]),
                None => old(grid)@,
            }
        } else {
            old(grid)@
        },
{
    if pressed {
        let col = cell_index(pointer.0, cell_size);
        let row = cell_index(pointer.1, cell_size);

        if col < cols && row < rows {
            let ghost offset = (row as int) * (cols as int);
            assert(clicked_cell(cols as int, rows as int, cell_size as int, pointer) == Some(
                offset + col,
            ));
            assert(0 <= offset) by (nonlinear_arith)
                requires
                    offset == (row as int) * (cols as int),
                    0 <= row,
                    0 <= cols,
            ;
            assert(offset + col < grid.len());
            let idx = row * cols + col;
            let cell = grid[idx];
            grid.set(idx, !cell);
        }
    }
}

/// A cell inside the grid has an index below `rows * cols`, so a grid that
/// holds all its cells can take any click.
pub proof fn lemma_clicked_cell_in_grid(cols: int, rows: int, cell_size: int, pointer: (i32, i32))
    requires
        0 <= cols,
        0 <= rows,
        cell_size > 0,
    ensures
        clicked_cell(cols, rows, cell_size, pointer) matches Some(idx) ==> 0 <= idx < rows * cols,
{
    let col = cell_of(pointer.0 as int, cell_size);
    let row = cell_of(pointer.1 as int, cell_size);
    if col < cols && row < rows {
        assert(0 <= col) by (nonlinear_arith)
            requires
                col == cell_of(pointer.0 as int, cell_size),
                cell_size > 0,
        ;
        assert(0 <= row) by (nonlinear_arith)
            requires
                row == cell_of(pointer.1 as int, cell_size),
                cell_size > 0,
        ;
        assert(0 <= row * cols + col < rows * cols) by (nonlinear_arith)
            requires
                0 <= col < cols,
                0 <= row < rows,
        ;
    }
}

} // verus!
