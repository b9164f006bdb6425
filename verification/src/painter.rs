//! The painter: the camera through which the grid is seen, the life cycle of
//! the drawing resources, and the assembly of a frame.

use crate::grid::lemma_position_index;
use crate::mesh::{mesh, quads, Corner, Vertex};
use crate::universe::Cell;
use vstd::prelude::*;

verus! {

/// The bit pattern of the zoom factor 1 as a single-precision float.
pub const UNIT_ZOOM: u32 = 0x3f80_0000;

/// What a painter is, as far as its results depend on it.
pub struct PainterState {
    /// The camera's offset in pixels, horizontal then vertical.
    pub offset: (i32, i32),
    /// The camera's zoom factor, as the bit pattern of a single-precision
    /// float.
    pub zoom: u32,
    /// Whether the drawing resources are held. A painter is ready from its
    /// construction until it is disposed of.
    pub ready: bool,
}

impl PainterState {
    /// The state of a new painter: no offset, zoom factor 1, ready.
    pub open spec fn initial() -> PainterState {
        PainterState { offset: (0i32, 0i32), zoom: UNIT_ZOOM, ready: true }
    }

    /// This state with the camera moved to the offset `x`, `y`.
    pub open spec fn with_offset(self, x: i32, y: i32) -> PainterState {
        PainterState { offset: (x, y), ..self }
    }

    /// This state with the zoom factor replaced.
    pub open spec fn with_zoom(self, zoom: u32) -> PainterState {
        PainterState { zoom, ..self }
    }

    /// This state after the drawing resources were released.
    pub open spec fn disposed(self) -> PainterState {
        PainterState { ready: false, ..self }
    }
}

/// Everything that one frame hands to the drawing surface: the mesh of the
/// grid and the camera through which it is seen.
pub struct Frame {
    /// Six vertices per cell, rows outermost.
    pub vertices: Vec<Vertex>,
    /// The number of columns of the grid that was painted.
    pub width: u32,
    /// The number of rows of the grid that was painted.
    pub height: u32,
    /// The camera's offset in pixels.
    pub offset: (i32, i32),
    /// The camera's zoom factor, as the bit pattern of a single-precision
    /// float.
    pub zoom: u32,
}

/// The camera and the life cycle of the drawing resources.
pub struct Painter {
    offset: (i32, i32),
    zoom: u32,
    ready: bool,
}

impl View for Painter {
    type V = PainterState;

    closed spec fn view(&self) -> PainterState {
        PainterState { offset: self.offset, zoom: self.zoom, ready: self.ready }
    }
}

#[allow(non_snake_case)]
impl Painter {
    /// A painter that is ready, with the camera at rest.
    pub fn new() -> (painter: Painter)
        ensures
            painter@ == PainterState::initial(),
    {
        Painter { offset: (0, 0), zoom: UNIT_ZOOM, ready: true }
    }

    /// Assembles the frame that shows `cells`, a grid of `width` columns
    /// and `height` rows in row-major order: every cell, alive or dead,
    /// gives six vertices that carry its state, and the camera is handed on
    /// as it stands.
    pub fn paint(&self, cells: &Vec<Cell>, width: u32, height: u32) -> (frame: Frame)
        requires
            self@.ready,
            cells@.len() >= width * height,
            width * height * 6 <= usize::MAX,
        ensures
            frame.vertices@ == mesh(cells@, width as nat, height as nat),
            frame.width == width,
            frame.height == height,
            frame.offset == self@.offset,
            frame.zoom == self@.zoom,
    {
        let mut vertices: Vec<Vertex> = Vec::new();
        let mut row: u32 = 0;
        while row < height
            invariant
                row <= height,
                cells@.len() >= width * height,
                width * height * 6 <= usize::MAX,
                vertices@ == quads(cells@, width as nat, (row * width) as nat),
            decreases height - row,
        {
            let mut column: u32 = 0;
            while column < width
                invariant
                    row < height,
                    column <= width,
                    cells@.len() >= width * height,
                    width * height * 6 <= usize::MAX,
                    vertices@ == quads(cells@, width as nat, (row * width + column) as nat),
                decreases width - column,
            {
                proof {
                    lemma_position_index(row as int, column as int, width as int, height as int);
                    assert(0 <= row * width) by (nonlinear_arith)
                        requires
                            0 <= row,
                            0 <= width,
                    ;
                }
                let index: usize = row as usize * width as usize + column as usize;
                let alive = cells[index];
                vertices.push(Vertex { row, column, corner: Corner::LowerLeft, alive });
                vertices.push(Vertex { row, column, corner: Corner::LowerRight, alive });
                vertices.push(Vertex { row, column, corner: Corner::UpperRight, alive });
                vertices.push(Vertex { row, column, corner: Corner::LowerLeft, alive });
                vertices.push(Vertex { row, column, corner: Corner::UpperLeft, alive });
                vertices.push(Vertex { row, column, corner: Corner::UpperRight, alive });
                assert(vertices@ =~= quads(cells@, width as nat, (index + 1) as nat));
                column += 1;
            }
            assert((row + 1) * width == row * width + width) by (nonlinear_arith);
            row += 1;
        }
        assert(row * width == width * height) by (nonlinear_arith)
            requires
                row == height,
        ;
        Frame { vertices, width, height, offset: self.offset, zoom: self.zoom }
    }

    /// Whether the drawing resources are still held, so that a frame may be
    /// painted.
    pub fn is_ready(&self) -> (ready: bool)
        ensures
            ready == self@.ready,
    {
        self.ready
    }

    /// Ends the painter's life: from now on it is not ready. The camera
    /// stays as it is.
    pub fn dispose(&mut self)
        ensures
            final(self)@ == old(self)@.disposed(),
        no_unwind
    {
        self.ready = false;
    }

    /// The camera's offset in pixels.
    pub fn getOffset(&self) -> (offset: (i32, i32))
        ensures
            offset == self@.offset,
    {
        self.offset
    }

    /// Moves the camera to the offset `x`, `y`.
    pub fn setOffset(&mut self, x: i32, y: i32)
        ensures
            final(self)@ == old(self)@.with_offset(x, y),
        no_unwind
    {
        self.offset = (x, y);
    }

    /// The camera's zoom factor, as the bit pattern of a single-precision
    /// float.
    pub fn getZoom(&self) -> (zoom: u32)
        ensures
            zoom == self@.zoom,
    {
        self.zoom
    }

    /// Replaces the camera's zoom factor, given as the bit pattern of a
    /// single-precision float. No value is refused.
    pub fn setZoom(&mut self, zoom: u32)
        ensures
            final(self)@ == old(self)@.with_zoom(zoom),
        no_unwind
    {
        self.zoom = zoom;
    }
}

} // verus!
