//! What holds of every grid, every mesh and every painter.

use crate::grid::{
    lemma_position_index, lemma_wrap_next, lemma_wrap_previous, next_state, Grid,
};
use crate::mesh::{mesh, quad_corners};
use crate::painter::PainterState;
use crate::universe::Cell;
use vstd::arithmetic::div_mod::{
    lemma_fundamental_div_mod, lemma_mod_bound, lemma_mod_twice, lemma_small_mod,
    lemma_sub_mod_noop,
};
use vstd::arithmetic::mul::lemma_mul_inequality;
use vstd::prelude::*;

verus! {

/// The grid is a torus: the cell diagonally before the first cell is the
/// last cell of the last row, and the neighbour count of the first cell
/// counts it.
pub proof fn law_first_cell_counts_last_cell(grid: Grid)
    requires
        grid.wf(),
    ensures
        grid.cell(0 - 1, 0 - 1) == grid.cells[grid.index(grid.height - 1, grid.width - 1)],
        grid.neighbor_count(0, 0) == grid.cells[grid.index(
            grid.height - 1,
            grid.width - 1,
        )].flag() + grid.live(-1, 0) + grid.live(-1, 1) + grid.live(0, -1) + grid.live(0, 1)
            + grid.live(1, -1) + grid.live(1, 0) + grid.live(1, 1),
        grid.cells[grid.index(grid.height - 1, grid.width - 1)] == Cell::Alive
            ==> grid.neighbor_count(0, 0) >= 1,
{
    lemma_wrap_previous(0, grid.height as int);
    lemma_wrap_previous(0, grid.width as int);
    lemma_small_mod(0, grid.height);
    lemma_small_mod(0, grid.width);
}

/// Positions that differ by whole turns around the torus name the same
/// cell.
pub proof fn law_positions_wrap(grid: Grid, row: int, column: int, turns_down: int, turns_right: int)
    requires
        grid.wf(),
    ensures
        grid.cell(row + turns_down * grid.height, column + turns_right * grid.width) == grid.cell(
            row,
            column,
        ),
{
    let h = grid.height as int;
    let w = grid.width as int;
    vstd::arithmetic::div_mod::lemma_mod_multiples_vanish(turns_down, row, h);
    vstd::arithmetic::div_mod::lemma_mod_multiples_vanish(turns_right, column, w);
    assert(h * turns_down + row == row + turns_down * h) by (nonlinear_arith);
    assert(w * turns_right + column == column + turns_right * w) by (nonlinear_arith);
}

/// A neighbour count lies between 0 and 8.
pub proof fn law_neighbor_count_range(grid: Grid, row: int, column: int)
    ensures
        0 <= grid.neighbor_count(row, column) <= 8,
{
}

/// One generation is simultaneous: the next grid has the same shape, and
/// each of its cells is the rule applied to that cell and its neighbour
/// count in the grid before.
pub proof fn law_next_reads_previous_generation(grid: Grid, row: int, column: int)
    requires
        grid.wf(),
        0 <= row < grid.height,
        0 <= column < grid.width,
    ensures
        grid.next().wf(),
        grid.next().width == grid.width,
        grid.next().height == grid.height,
        grid.next().cell(row, column) == next_state(
            grid.cells[grid.index(row, column)],
            grid.neighbor_count(row, column),
        ),
{
    lemma_position_index(row, column, grid.width as int, grid.height as int);
    lemma_small_mod(row as nat, grid.height);
    lemma_small_mod(column as nat, grid.width);
}

/// A live cell without a live neighbour is dead in the next generation.
pub proof fn law_isolated_cell_dies(grid: Grid, row: int, column: int)
    requires
        grid.wf(),
        0 <= row < grid.height,
        0 <= column < grid.width,
        grid.cell(row, column) == Cell::Alive,
        grid.neighbor_count(row, column) == 0,
    ensures
        grid.next().cell(row, column) == Cell::Dead,
{
    law_next_reads_previous_generation(grid, row, column);
    lemma_small_mod(row as nat, grid.height);
    lemma_small_mod(column as nat, grid.width);
}

/// A dead cell with exactly three live neighbours is alive in the next
/// generation.
pub proof fn law_birth(grid: Grid, row: int, column: int)
    requires
        grid.wf(),
        0 <= row < grid.height,
        0 <= column < grid.width,
        grid.cell(row, column) == Cell::Dead,
        grid.neighbor_count(row, column) == 3,
    ensures
        grid.next().cell(row, column) == Cell::Alive,
{
    law_next_reads_previous_generation(grid, row, column);
    lemma_small_mod(row as nat, grid.height);
    lemma_small_mod(column as nat, grid.width);
}

/// Whether `position` lies on `start` or one step after it, on a ring of
/// `length` positions.
pub open spec fn within_two(position: int, start: int, length: nat) -> bool {
    (position - start) % (length as int) < 2
}

/// The grid whose only live cells are the two-by-two block that begins at
/// `row` and `column` and continues around the torus where it meets an edge.
pub open spec fn block(width: nat, height: nat, row: int, column: int) -> Grid {
    Grid {
        width,
        height,
        cells: Seq::new(
            width * height,
            |i: int|
                if within_two(i / (width as int), row, height) && within_two(
                    i % (width as int),
                    column,
                    width,
                ) {
                    Cell::Alive
                } else {
                    Cell::Dead
                },
        ),
    }
}

proof fn lemma_block_cell(width: nat, height: nat, row: int, column: int, r: int, c: int)
    requires
        width > 0,
        height > 0,
    ensures
        block(width, height, row, column).live(r, c) == if within_two(r, row, height)
            && within_two(c, column, width) {
            1int
        } else {
            0int
        },
{
    let h = height as int;
    let w = width as int;
    lemma_mod_bound(r, h);
    lemma_mod_bound(c, w);
    lemma_position_index(r % h, c % w, w, h);
    lemma_sub_mod_noop(r, row, h);
    lemma_sub_mod_noop(r % h, row, h);
    lemma_mod_twice(r, h);
    lemma_sub_mod_noop(c, column, w);
    lemma_sub_mod_noop(c % w, column, w);
    lemma_mod_twice(c, w);
}

proof fn lemma_block_cell_is_still(width: nat, height: nat, row: int, column: int, r: int, c: int)
    requires
        width >= 3,
        height >= 3,
    ensures
        block(width, height, row, column).next_cell(r, c) == block(
            width,
            height,
            row,
            column,
        ).cell(r, c),
{
    let grid = block(width, height, row, column);
    let h = height as int;
    let w = width as int;
    lemma_block_cell(width, height, row, column, r - 1, c - 1);
    lemma_block_cell(width, height, row, column, r - 1, c);
    lemma_block_cell(width, height, row, column, r - 1, c + 1);
    lemma_block_cell(width, height, row, column, r, c - 1);
    lemma_block_cell(width, height, row, column, r, c);
    lemma_block_cell(width, height, row, column, r, c + 1);
    lemma_block_cell(width, height, row, column, r + 1, c - 1);
    lemma_block_cell(width, height, row, column, r + 1, c);
    lemma_block_cell(width, height, row, column, r + 1, c + 1);
    lemma_wrap_previous(r - row, h);
    lemma_wrap_next(r - row, h);
    lemma_wrap_previous(c - column, w);
    lemma_wrap_next(c - column, w);
    lemma_mod_bound(r - row, h);
    lemma_mod_bound(c - column, w);
    assert(r - 1 - row == r - row - 1);
    assert(r + 1 - row == r - row + 1);
    assert(c - 1 - column == c - column - 1);
    assert(c + 1 - column == c - column + 1);
}

/// A two-by-two block on a grid of at least three rows and three columns,
/// so on every grid of four by four or more, is a still life: it is its own
/// next generation, wherever on the torus it lies, and so it is unchanged
/// after any number of generations.
pub proof fn law_block_is_still(width: nat, height: nat, row: int, column: int, generations: nat)
    requires
        width >= 3,
        height >= 3,
    ensures
        block(width, height, row, column).wf(),
        block(width, height, row, column).next() == block(width, height, row, column),
        block(width, height, row, column).after(generations) == block(width, height, row, column),
    decreases generations,
{
    let grid = block(width, height, row, column);
    let w = width as int;
    let h = height as int;
    assert forall|i: int| 0 <= i < grid.cells.len() implies grid.next().cells[i]
        == grid.cells[i] by {
        lemma_fundamental_div_mod(i, w);
        lemma_mod_bound(i, w);
        let r = i / w;
        let c = i % w;
        assert(w * r == r * w) by (nonlinear_arith);
        assert(0 <= r < h) by {
            if r >= h {
                lemma_mul_inequality(h, r, w);
                assert(h * w == w * h) by (nonlinear_arith);
            }
            if r < 0 {
                lemma_mul_inequality(r, -1, w);
            }
        }
        lemma_block_cell_is_still(width, height, row, column, r, c);
        lemma_small_mod(r as nat, height);
        lemma_small_mod(c as nat, width);
    }
    assert(grid.next().cells =~= grid.cells);
    if generations > 0 {
        law_block_is_still(width, height, row, column, (generations - 1) as nat);
    }
}

/// The mesh has six vertices for every cell; vertex `k` belongs to the cell
/// with flat index `k / 6`, carries its state, and lies inside the square
/// of normalized device coordinates, from -1 to 1 on both axes.
pub proof fn law_mesh_layout(cells: Seq<Cell>, width: nat, height: nat, k: int)
    requires
        width > 0,
        height > 0,
        width * height <= u32::MAX,
        cells.len() == width * height,
        0 <= k < 6 * (width * height),
    ensures
        mesh(cells, width, height).len() == 6 * (width * height),
        mesh(cells, width, height)[k].alive == cells[k / 6],
        mesh(cells, width, height)[k].corner == quad_corners()[k % 6],
        mesh(cells, width, height)[k].row * width + mesh(cells, width, height)[k].column == k / 6,
        mesh(cells, width, height)[k].column < width,
        mesh(cells, width, height)[k].row < height,
        -width <= mesh(cells, width, height)[k].ndc_x(width as int) <= width,
        -height <= mesh(cells, width, height)[k].ndc_y(height as int) <= height,
{
    let i = k / 6;
    let w = width as int;
    let h = height as int;
    lemma_fundamental_div_mod(i, w);
    lemma_mod_bound(i, w);
    assert(w * (i / w) == (i / w) * w) by (nonlinear_arith);
    assert(0 <= i / w < h) by {
        if i / w >= h {
            lemma_mul_inequality(h, i / w, w);
            assert(h * w == w * h) by (nonlinear_arith);
        }
        if i / w < 0 {
            lemma_mul_inequality(i / w, -1, w);
        }
    }
    assert(h <= w * h) by (nonlinear_arith)
        requires
            w >= 1,
            h >= 1,
    ;
    assert(w <= w * h) by (nonlinear_arith)
        requires
            w >= 1,
            h >= 1,
    ;
}

/// Reading the offset after setting it gives what was set; the zoom and the
/// painter's life cycle are not touched.
pub proof fn law_offset_round_trip(painter: PainterState, x: i32, y: i32)
    ensures
        painter.with_offset(x, y).offset == (x, y),
        painter.with_offset(x, y).zoom == painter.zoom,
        painter.with_offset(x, y).ready == painter.ready,
{
}

/// Reading the zoom after setting it gives what was set, bit for bit; the
/// offset and the painter's life cycle are not touched.
pub proof fn law_zoom_round_trip(painter: PainterState, zoom: u32)
    ensures
        painter.with_zoom(zoom).zoom == zoom,
        painter.with_zoom(zoom).offset == painter.offset,
        painter.with_zoom(zoom).ready == painter.ready,
{
}

/// Disposal is final: no sequence of camera changes makes a disposed painter
/// ready again.
pub proof fn law_disposed_stays_disposed(painter: PainterState, x: i32, y: i32, zoom: u32)
    ensures
        !painter.disposed().ready,
        !painter.disposed().with_offset(x, y).ready,
        !painter.disposed().with_zoom(zoom).ready,
        !painter.disposed().disposed().ready,
{
}

} // verus!
