//! The universe: a grid of cells that advances by generations, together with
//! the painter that shows it.

use crate::grid::{lemma_position_index, lemma_wrap_next, lemma_wrap_previous, seed_cell, Grid};
use crate::mesh::mesh;
use crate::painter::{Frame, Painter, PainterState};
use vstd::arithmetic::div_mod::{lemma_mod_twice, lemma_small_mod};
use vstd::prelude::*;

verus! {

/// The state of one grid position.
#[derive(Clone, Copy, Debug, PartialEq, Eq, Structural)]
pub enum Cell {
    Dead,
    Alive,
}

impl Cell {
    /// The number that stands for this cell: 0 for a dead cell, 1 for a live one.
    pub open spec fn flag(self) -> int {
        match self {
            Cell::Dead => 0,
            Cell::Alive => 1,
        }
    }

    /// The cell's flag as a byte.
    pub fn as_u8(self) -> (b: u8)
        ensures
            b == self.flag(),
    {
        match self {
            Cell::Dead => 0,
            Cell::Alive => 1,
        }
    }
}

/// What a universe is: its grid and the state of its painter.
pub struct UniverseState {
    pub grid: Grid,
    pub painter: PainterState,
}

/// A toroidal grid of cells with its painter.
pub struct Universe {
    painter: Painter,
    width: u32,
    height: u32,
    cells: Vec<Cell>,
}

impl View for Universe {
    type V = UniverseState;

    closed spec fn view(&self) -> UniverseState {
        UniverseState {
            grid: Grid {
                width: self.width as nat,
                height: self.height as nat,
                cells: self.cells@,
            },
            painter: self.painter@,
        }
    }
}

/// Whether a grid of this size can be held: both dimensions are positive and
/// the number of cells fits the 32-bit index of a cell.
pub open spec fn valid_dimensions(width: u32, height: u32) -> bool {
    &&& width > 0
    &&& height > 0
    &&& width * height <= u32::MAX
}

#[allow(non_snake_case)]
impl Universe {
    #[verifier::type_invariant]
    spec fn well_formed(self) -> bool {
        &&& valid_dimensions(self.width, self.height)
        &&& self.cells@.len() == self.width * self.height
    }

    /// A universe of the given size in its seeded state, with a new painter.
    pub fn new(width: u32, height: u32) -> (universe: Universe)
        requires
            valid_dimensions(width, height),
        ensures
            universe@.grid == Grid::seeded(width as nat, height as nat),
            universe@.grid.wf(),
            universe@.painter == PainterState::initial(),
    {
        let count: u32 = width * height;
        let mut cells: Vec<Cell> = Vec::new();
        let mut i: u32 = 0;
        while i < count
            invariant
                i <= count,
                cells@.len() == i,
                forall|k: int| 0 <= k < i ==> cells@[k] == seed_cell(k),
            decreases count - i,
        {
            let cell = if i % 2 == 0 || i % 7 == 0 {
                Cell::Alive
            } else {
                Cell::Dead
            };
            cells.push(cell);
            i += 1;
        }
        assert(cells@ =~= Grid::seeded(width as nat, height as nat).cells);
        Universe { painter: Painter::new(), width, height, cells }
    }

    /// A universe that holds the given cells, in row-major order, with a new
    /// painter; `None` where the dimensions are not valid or the number of
    /// cells is not their product.
    pub fn from_cells(width: u32, height: u32, cells: Vec<Cell>) -> (result: Option<Universe>)
        ensures
            result.is_some() <==> valid_dimensions(width, height) && cells@.len() == width
                * height,
            result matches Some(universe) ==> {
                &&& universe@.grid == (Grid {
                    width: width as nat,
                    height: height as nat,
                    cells: cells@,
                })
                &&& universe@.grid.wf()
                &&& universe@.painter == PainterState::initial()
            },
    {
        if width == 0 || height == 0 {
            return None;
        }
        assert(width * height <= 0xffff_ffff * 0xffff_ffff) by (nonlinear_arith)
            requires
                0 <= width <= 0xffff_ffff,
                0 <= height <= 0xffff_ffff,
        ;
        let count: u64 = width as u64 * height as u64;
        if count > u32::MAX as u64 || cells.len() as u64 != count {
            return None;
        }
        Some(Universe { painter: Painter::new(), width, height, cells })
    }

    /// The number of columns.
    pub fn width(&self) -> (width: u32)
        ensures
            width == self@.grid.width,
            self@.grid.wf(),
    {
        proof {
            use_type_invariant(self);
        }
        self.width
    }

    /// The number of rows.
    pub fn height(&self) -> (height: u32)
        ensures
            height == self@.grid.height,
            self@.grid.wf(),
    {
        proof {
            use_type_invariant(self);
        }
        self.height
    }

    /// The cells of the current generation in row-major order.
    pub fn cells(&self) -> (cells: &Vec<Cell>)
        ensures
            cells@ == self@.grid.cells,
            self@.grid.wf(),
    {
        proof {
            use_type_invariant(self);
        }
        &self.cells
    }

    /// The universe's painter.
    pub fn painter(&self) -> (painter: &Painter)
        ensures
            painter@ == self@.painter,
    {
        &self.painter
    }

    /// The flat index of the cell at `row` and `column`. For a position
    /// inside the grid it is the place of that cell among the cells.
    pub fn get_index(&self, row: u32, column: u32) -> (index: usize)
        requires
            row * self@.grid.width + column <= u32::MAX,
        ensures
            index == self@.grid.index(row as int, column as int),
            row < self@.grid.height && column < self@.grid.width ==> index
                < self@.grid.cells.len(),
    {
        proof {
            use_type_invariant(self);
            if row < self.height && column < self.width {
                lemma_position_index(
                    row as int,
                    column as int,
                    self.width as int,
                    self.height as int,
                );
            }
            assert(0 <= row * self.width) by (nonlinear_arith)
                requires
                    0 <= row,
                    0 <= self.width,
            ;
        }
        (row as u64 * self.width as u64 + column as u64) as usize
    }

    /// The flag of the cell at a position inside the grid.
    fn live_at(&self, row: u32, column: u32) -> (flag: u8)
        requires
            row < self@.grid.height,
            column < self@.grid.width,
        ensures
            flag == self@.grid.live(row as int, column as int),
    {
        proof {
            use_type_invariant(self);
            lemma_position_index(row as int, column as int, self.width as int, self.height as int);
            lemma_small_mod(row as nat, self.height as nat);
            lemma_small_mod(column as nat, self.width as nat);
        }
        let index = self.get_index(row, column);
        self.cells[index].as_u8()
    }

    /// How many of the eight neighbours of the cell at `row` and `column`
    /// are alive. Rows and columns wrap around: any pair of numbers names a
    /// cell, and the neighbours of a cell on an edge lie on the opposite
    /// edge.
    pub fn get_live_neighbor_count(&self, row: u32, column: u32) -> (count: u8)
        ensures
            count == self@.grid.neighbor_count(row as int, column as int),
            count <= 8,
    {
        proof {
            use_type_invariant(self);
        }
        let here = row % self.height;
        let north = if here == 0 {
            self.height - 1
        } else {
            here - 1
        };
        let south = if here + 1 == self.height {
            0
        } else {
            here + 1
        };
        let there = column % self.width;
        let west = if there == 0 {
            self.width - 1
        } else {
            there - 1
        };
        let east = if there + 1 == self.width {
            0
        } else {
            there + 1
        };
        proof {
            let grid = self@.grid;
            let h = self.height as int;
            let w = self.width as int;
            lemma_wrap_previous(row as int, h);
            lemma_wrap_next(row as int, h);
            lemma_wrap_previous(column as int, w);
            lemma_wrap_next(column as int, w);
            lemma_mod_twice(row as int, h);
            lemma_mod_twice(column as int, w);
            lemma_small_mod(north as nat, h as nat);
            lemma_small_mod(south as nat, h as nat);
            lemma_small_mod(west as nat, w as nat);
            lemma_small_mod(east as nat, w as nat);
            assert(grid.live(row - 1, column - 1) == grid.live(north as int, west as int));
            assert(grid.live(row - 1, column as int) == grid.live(north as int, there as int));
            assert(grid.live(row - 1, column + 1) == grid.live(north as int, east as int));
            assert(grid.live(row as int, column - 1) == grid.live(here as int, west as int));
            assert(grid.live(row as int, column + 1) == grid.live(here as int, east as int));
            assert(grid.live(row + 1, column - 1) == grid.live(south as int, west as int));
            assert(grid.live(row + 1, column as int) == grid.live(south as int, there as int));
            assert(grid.live(row + 1, column + 1) == grid.live(south as int, east as int));
        }
        let mut count: u8 = self.live_at(north, west);
        count += self.live_at(north, there);
        count += self.live_at(north, east);
        count += self.live_at(here, west);
        count += self.live_at(here, east);
        count += self.live_at(south, west);
        count += self.live_at(south, there);
        count += self.live_at(south, east);
        count
    }

    /// Advances the universe by one generation. Every cell's next state is
    /// computed from the generation before the call; the painter is left
    /// alone.
    pub fn tick(&mut self)
        ensures
            final(self)@ == (UniverseState {
                grid: old(self)@.grid.next(),
                painter: old(self)@.painter,
            }),
            final(self)@.grid.wf(),
    {
        proof {
            use_type_invariant(&*self);
        }
        let ghost grid = self@.grid;
        let mut next: Vec<Cell> = Vec::new();
        let mut row: u32 = 0;
        while row < self.height
            invariant
                *self == *old(self),
                grid == self@.grid,
                grid.wf(),
                row <= self.height,
                next@.len() == row * self.width,
                forall|i: int|
                    0 <= i < next@.len() ==> next@[i] == grid.next_cell(
                        i / (grid.width as int),
                        i % (grid.width as int),
                    ),
            decreases self.height - row,
        {
            let mut column: u32 = 0;
            while column < self.width
                invariant
                    *self == *old(self),
                    grid == self@.grid,
                    grid.wf(),
                    row < self.height,
                    column <= self.width,
                    next@.len() == row * self.width + column,
                    forall|i: int|
                        0 <= i < next@.len() ==> next@[i] == grid.next_cell(
                            i / (grid.width as int),
                            i % (grid.width as int),
                        ),
                decreases self.width - column,
            {
                proof {
                    use_type_invariant(&*self);
                    lemma_position_index(
                        row as int,
                        column as int,
                        self.width as int,
                        self.height as int,
                    );
                    lemma_small_mod(row as nat, self.height as nat);
                    lemma_small_mod(column as nat, self.width as nat);
                }
                let index = self.get_index(row, column);
                let cell = self.cells[index];
                let live_neighbors = self.get_live_neighbor_count(row, column);
                let next_cell = match cell {
                    Cell::Alive => if live_neighbors == 2 || live_neighbors == 3 {
                        Cell::Alive
                    } else {
                        Cell::Dead
                    },
                    Cell::Dead => if live_neighbors == 3 {
                        Cell::Alive
                    } else {
                        Cell::Dead
                    },
                };
                next.push(next_cell);
                column += 1;
            }
            assert((row + 1) * self.width == row * self.width + self.width) by (nonlinear_arith);
            row += 1;
        }
        proof {
            assert(row * self.width == self.width * self.height) by (nonlinear_arith)
                requires
                    row == self.height,
            ;
            assert(next@ =~= grid.next().cells);
        }
        self.cells = next;
    }

    /// Assembles the frame that shows the current generation through the
    /// painter's camera.
    pub fn paint(&self) -> (frame: Frame)
        requires
            self@.painter.ready,
            self@.grid.width * self@.grid.height * 6 <= usize::MAX,
        ensures
            frame.vertices@ == mesh(self@.grid.cells, self@.grid.width, self@.grid.height),
            frame.width == self@.grid.width,
            frame.height == self@.grid.height,
            frame.offset == self@.painter.offset,
            frame.zoom == self@.painter.zoom,
    {
        proof {
            use_type_invariant(self);
        }
        self.painter.paint(&self.cells, self.width, self.height)
    }

    /// Ends the life of the universe's painter. The grid stays as it is.
    pub fn destroy(&mut self)
        ensures
            final(self)@ == (UniverseState {
                grid: old(self)@.grid,
                painter: old(self)@.painter.disposed(),
            }),
    {
        proof {
            use_type_invariant(&*self);
        }
        self.painter.dispose();
    }

    /// The camera's offset in pixels.
    pub fn getOffset(&self) -> (offset: (i32, i32))
        ensures
            offset == self@.painter.offset,
    {
        self.painter.getOffset()
    }

    /// Moves the camera to the offset `x`, `y`.
    pub fn setOffset(&mut self, x: i32, y: i32)
        ensures
            final(self)@ == (UniverseState {
                grid: old(self)@.grid,
                painter: old(self)@.painter.with_offset(x, y),
            }),
    {
        proof {
            use_type_invariant(&*self);
        }
        self.painter.setOffset(x, y);
    }

    /// The camera's zoom factor, as the bit pattern of a single-precision
    /// float.
    pub fn getZoom(&self) -> (zoom: u32)
        ensures
            zoom == self@.painter.zoom,
    {
        self.painter.getZoom()
    }

    /// Replaces the camera's zoom factor, given as the bit pattern of a
    /// single-precision float.
    pub fn setZoom(&mut self, zoom: u32)
        ensures
            final(self)@ == (UniverseState {
                grid: old(self)@.grid,
                painter: old(self)@.painter.with_zoom(zoom),
            }),
    {
        proof {
            use_type_invariant(&*self);
        }
        self.painter.setZoom(zoom);
    }
}

} // verus!
