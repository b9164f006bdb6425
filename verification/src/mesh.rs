//! The geometry of a frame: every cell becomes two triangles that cover its
//! rectangle, six vertices in a fixed order.
//!
//! Coordinates are kept exact. A vertex names its cell and one corner of it;
//! its position in normalized device coordinates is a fraction whose
//! denominator is the grid's width or height.

use crate::universe::Cell;
use vstd::prelude::*;

verus! {

/// One corner of a cell's rectangle. Columns grow to the right and rows grow
/// upwards, as the axes of normalized device coordinates do.
#[derive(Clone, Copy, Debug, PartialEq, Eq, Structural)]
pub enum Corner {
    LowerLeft,
    LowerRight,
    UpperLeft,
    UpperRight,
}

impl Corner {
    /// 1 for a corner on the cell's right edge, 0 for one on its left edge.
    pub open spec fn right(self) -> int {
        match self {
            Corner::LowerRight | Corner::UpperRight => 1,
            Corner::LowerLeft | Corner::UpperLeft => 0,
        }
    }

    /// 1 for a corner on the cell's upper edge, 0 for one on its lower edge.
    pub open spec fn upper(self) -> int {
        match self {
            Corner::UpperLeft | Corner::UpperRight => 1,
            Corner::LowerLeft | Corner::LowerRight => 0,
        }
    }

    /// Whether the corner lies on the cell's right edge.
    pub fn is_right(self) -> (b: bool)
        ensures
            b == (self.right() == 1),
    {
        match self {
            Corner::LowerRight | Corner::UpperRight => true,
            Corner::LowerLeft | Corner::UpperLeft => false,
        }
    }

    /// Whether the corner lies on the cell's upper edge.
    pub fn is_upper(self) -> (b: bool)
        ensures
            b == (self.upper() == 1),
    {
        match self {
            Corner::UpperLeft | Corner::UpperRight => true,
            Corner::LowerLeft | Corner::LowerRight => false,
        }
    }
}

/// One vertex of the mesh: a corner of the cell at `row` and `column`,
/// carrying that cell's state.
#[derive(Clone, Copy, Debug, PartialEq, Eq, Structural)]
pub struct Vertex {
    pub row: u32,
    pub column: u32,
    pub corner: Corner,
    pub alive: Cell,
}

impl Vertex {
    /// The vertical grid line that the vertex lies on, counted from the left
    /// edge of the grid.
    pub open spec fn grid_x(self) -> int {
        self.column + self.corner.right()
    }

    /// The horizontal grid line that the vertex lies on, counted from the
    /// lower edge of the grid.
    pub open spec fn grid_y(self) -> int {
        self.row + self.corner.upper()
    }

    /// The horizontal device coordinate, multiplied by `width`: grid line
    /// `x` of `width` columns lies at `2 * x / width - 1`.
    pub open spec fn ndc_x(self, width: int) -> int {
        2 * self.grid_x() - width
    }

    /// The vertical device coordinate, multiplied by `height`.
    pub open spec fn ndc_y(self, height: int) -> int {
        2 * self.grid_y() - height
    }

    /// The numerator of the horizontal device coordinate; its denominator
    /// is `width`.
    pub fn ndc_x_numerator(&self, width: u32) -> (n: i64)
        ensures
            n == self.ndc_x(width as int),
    {
        let line: i64 = self.column as i64 + if self.corner.is_right() {
            1
        } else {
            0
        };
        2 * line - width as i64
    }

    /// The numerator of the vertical device coordinate; its denominator is
    /// `height`.
    pub fn ndc_y_numerator(&self, height: u32) -> (n: i64)
        ensures
            n == self.ndc_y(height as int),
    {
        let line: i64 = self.row as i64 + if self.corner.is_upper() {
            1
        } else {
            0
        };
        2 * line - height as i64
    }
}

/// The corners of a cell in the order in which its vertices are emitted: the
/// triangle below the diagonal from lower left to upper right, then the one
/// above it.
pub open spec fn quad_corners() -> Seq<Corner> {
    seq![
        Corner::LowerLeft,
        Corner::LowerRight,
        Corner::UpperRight,
        Corner::LowerLeft,
        Corner::UpperLeft,
        Corner::UpperRight,
    ]
}

/// The `k`-th vertex of the mesh of a grid `width` columns wide: vertex
/// `k % 6` of the cell with flat index `k / 6`.
pub open spec fn vertex_at(cells: Seq<Cell>, width: nat, k: int) -> Vertex {
    let i = k / 6;
    Vertex {
        row: (i / (width as int)) as u32,
        column: (i % (width as int)) as u32,
        corner: quad_corners()[k % 6],
        alive: cells[i],
    }
}

/// The vertices of the first `count` cells in row-major order.
pub open spec fn quads(cells: Seq<Cell>, width: nat, count: nat) -> Seq<Vertex> {
    Seq::new(6 * count, |k: int| vertex_at(cells, width, k))
}

/// The mesh of a whole grid: six vertices for every cell, alive or dead,
/// rows outermost.
pub open spec fn mesh(cells: Seq<Cell>, width: nat, height: nat) -> Seq<Vertex> {
    quads(cells, width, width * height)
}

} // verus!
