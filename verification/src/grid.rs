//! The mathematical model of the simulation: a torus of cells and the rule
//! that takes one generation to the next.

use crate::universe::Cell;
use vstd::arithmetic::div_mod::{
    lemma_add_mod_noop, lemma_fundamental_div_mod_converse, lemma_mod_bound, lemma_mod_self_0,
    lemma_mod_sub_multiples_vanish, lemma_small_mod, lemma_sub_mod_noop,
};
use vstd::arithmetic::mul::lemma_mul_inequality;
use vstd::prelude::*;

verus! {

/// A rectangle of cells in row-major order whose edges are glued together:
/// the row above the first is the last, and the column left of the first is
/// the last.
pub struct Grid {
    pub width: nat,
    pub height: nat,
    pub cells: Seq<Cell>,
}

/// The state that the seed gives to the cell at flat index `i`: alive where
/// `i` is a multiple of 2 or of 7.
pub open spec fn seed_cell(i: int) -> Cell {
    if i % 2 == 0 || i % 7 == 0 {
        Cell::Alive
    } else {
        Cell::Dead
    }
}

/// The next state of a cell that has `neighbors` live neighbours.
pub open spec fn next_state(cell: Cell, neighbors: int) -> Cell {
    if cell == Cell::Alive && neighbors < 2 {
        Cell::Dead
    } else if cell == Cell::Alive && (neighbors == 2 || neighbors == 3) {
        Cell::Alive
    } else if cell == Cell::Alive && neighbors > 3 {
        Cell::Dead
    } else if cell == Cell::Dead && neighbors == 3 {
        Cell::Alive
    } else {
        cell
    }
}

impl Grid {
    /// Both dimensions are positive and there is one cell per position.
    pub open spec fn wf(self) -> bool {
        &&& self.width > 0
        &&& self.height > 0
        &&& self.cells.len() == self.width * self.height
    }

    /// The grid of the given size in its seeded state.
    pub open spec fn seeded(width: nat, height: nat) -> Grid {
        Grid { width, height, cells: Seq::new(width * height, |i: int| seed_cell(i)) }
    }

    /// The flat index of the cell at `row` and `column`.
    pub open spec fn index(self, row: int, column: int) -> int {
        row * self.width + column
    }

    /// The cell found at `row` and `column` after wrapping both around the
    /// torus, so that any pair of integers names a cell.
    pub open spec fn cell(self, row: int, column: int) -> Cell {
        self.cells[self.index(row % (self.height as int), column % (self.width as int))]
    }

    /// 1 if the cell at the wrapped position is alive, else 0.
    pub open spec fn live(self, row: int, column: int) -> int {
        self.cell(row, column).flag()
    }

    /// How many of the eight positions around `row` and `column` hold a live
    /// cell. The eight positions are taken on the torus; on a grid with a
    /// single row or column some of them coincide, with each other or with
    /// the centre, and each is still counted.
    pub open spec fn neighbor_count(self, row: int, column: int) -> int {
        self.live(row - 1, column - 1) + self.live(row - 1, column) + self.live(
            row - 1,
            column + 1,
        ) + self.live(row, column - 1) + self.live(row, column + 1) + self.live(
            row + 1,
            column - 1,
        ) + self.live(row + 1, column) + self.live(row + 1, column + 1)
    }

    /// The state of the cell at `row` and `column` one generation later.
    pub open spec fn next_cell(self, row: int, column: int) -> Cell {
        next_state(self.cell(row, column), self.neighbor_count(row, column))
    }

    /// The next generation: every cell's next state, each computed from this
    /// generation alone.
    pub open spec fn next(self) -> Grid {
        Grid {
            width: self.width,
            height: self.height,
            cells: Seq::new(
                self.cells.len(),
                |i: int| self.next_cell(i / (self.width as int), i % (self.width as int)),
            ),
        }
    }

    /// The grid after `n` generations.
    pub open spec fn after(self, n: nat) -> Grid
        decreases n,
    {
        if n == 0 {
            self
        } else {
            self.after((n - 1) as nat).next()
        }
    }
}

/// Row-major indexing is a bijection between positions and flat indices:
/// a position inside a `width` by `height` rectangle has an index below
/// `width * height`, from which division and remainder by `width` give the
/// position back.
pub proof fn lemma_position_index(row: int, column: int, width: int, height: int)
    requires
        0 <= row < height,
        0 <= column < width,
    ensures
        0 <= row * width + column < width * height,
        (row * width + column) / width == row,
        (row * width + column) % width == column,
{
    lemma_fundamental_div_mod_converse(row * width + column, width, row, column);
    lemma_mul_inequality(row + 1, height, width);
    lemma_mul_inequality(0, row, width);
    assert((row + 1) * width == row * width + width) by (nonlinear_arith);
    assert(height * width == width * height) by (nonlinear_arith);
}

/// Stepping back by one on a ring of `n` positions: from the first
/// position to the last, else to the one before.
pub proof fn lemma_wrap_previous(i: int, n: int)
    requires
        0 < n,
    ensures
        (i - 1) % n == if i % n == 0 {
            n - 1
        } else {
            i % n - 1
        },
{
    lemma_sub_mod_noop(i, 1, n);
    lemma_mod_bound(i, n);
    if n == 1 {
        lemma_mod_bound(i - 1, n);
    } else {
        lemma_small_mod(1, n as nat);
        if i % n == 0 {
            lemma_mod_sub_multiples_vanish(n - 1, n);
            lemma_small_mod((n - 1) as nat, n as nat);
            assert(-n + (n - 1) == 0 - 1);
        } else {
            lemma_small_mod((i % n - 1) as nat, n as nat);
        }
    }
}

/// Stepping forward by one on a ring of `n` positions: from the last
/// position to the first, else to the one after.
pub proof fn lemma_wrap_next(i: int, n: int)
    requires
        0 < n,
    ensures
        (i + 1) % n == if i % n + 1 == n {
            0
        } else {
            i % n + 1
        },
{
    lemma_add_mod_noop(i, 1, n);
    lemma_mod_bound(i, n);
    if n == 1 {
        lemma_mod_bound(i + 1, n);
    } else {
        lemma_small_mod(1, n as nat);
        if i % n + 1 == n {
            lemma_mod_self_0(n);
        } else {
            lemma_small_mod((i % n + 1) as nat, n as nat);
        }
    }
}

} // verus!
