use game_of_life::mesh::{Corner, Vertex};
use game_of_life::painter::{Painter, UNIT_ZOOM};
use game_of_life::universe::Cell;

const ORDER: [Corner; 6] = [
    Corner::LowerLeft,
    Corner::LowerRight,
    Corner::UpperRight,
    Corner::LowerLeft,
    Corner::UpperLeft,
    Corner::UpperRight,
];

#[test]
fn new_painter_is_ready_with_the_camera_at_rest() {
    let painter = Painter::new();
    assert!(painter.is_ready());
    assert_eq!(painter.getOffset(), (0, 0));
    assert_eq!(painter.getZoom(), UNIT_ZOOM);
    assert_eq!(f32::from_bits(painter.getZoom()), 1.0);
}

#[test]
fn unit_zoom_is_the_float_one() {
    assert_eq!(UNIT_ZOOM, 1.0f32.to_bits());
}

#[test]
fn offset_round_trip() {
    let mut painter = Painter::new();
    painter.setOffset(25, -13);
    assert_eq!(painter.getOffset(), (25, -13));
    painter.setOffset(0, 1);
    assert_eq!(painter.getOffset(), (0, 1));
    painter.setOffset(i32::MIN, i32::MAX);
    assert_eq!(painter.getOffset(), (i32::MIN, i32::MAX));
    assert_eq!(painter.getZoom(), UNIT_ZOOM);
    assert!(painter.is_ready());
}

#[test]
fn zoom_round_trip() {
    let mut painter = Painter::new();
    painter.setOffset(1, 2);
    for zoom in [0.5f32, 3.75, 1.0e-3, 1024.0, 0.0, -2.0] {
        painter.setZoom(zoom.to_bits());
        assert_eq!(f32::from_bits(painter.getZoom()), zoom);
        assert_eq!(painter.getZoom(), zoom.to_bits());
    }
    assert_eq!(painter.getOffset(), (1, 2));
    assert!(painter.is_ready());
}

#[test]
fn zoom_is_kept_bit_for_bit() {
    let mut painter = Painter::new();
    let nan = f32::NAN.to_bits() | 1;
    painter.setZoom(nan);
    assert_eq!(painter.getZoom(), nan);
    painter.setZoom((-0.0f32).to_bits());
    assert_eq!(painter.getZoom(), 0x8000_0000);
}

#[test]
fn dispose_ends_readiness_and_keeps_the_camera() {
    let mut painter = Painter::new();
    painter.setOffset(9, 8);
    painter.setZoom(4.0f32.to_bits());
    painter.dispose();
    assert!(!painter.is_ready());
    assert_eq!(painter.getOffset(), (9, 8));
    assert_eq!(f32::from_bits(painter.getZoom()), 4.0);
    painter.setOffset(1, 1);
    painter.setZoom(UNIT_ZOOM);
    assert!(!painter.is_ready());
    painter.dispose();
    assert!(!painter.is_ready());
}

#[test]
fn single_alive_cell_fills_the_device_square() {
    let painter = Painter::new();
    let frame = painter.paint(&vec![Cell::Alive], 1, 1);
    assert_eq!(frame.vertices.len(), 6);
    let positions: Vec<(f32, f32)> = frame
        .vertices
        .iter()
        .map(|v| (v.ndc_x_numerator(1) as f32 / 1.0, v.ndc_y_numerator(1) as f32 / 1.0))
        .collect();
    assert_eq!(
        positions,
        vec![(-1.0, -1.0), (1.0, -1.0), (1.0, 1.0), (-1.0, -1.0), (-1.0, 1.0), (1.0, 1.0)]
    );
    for vertex in &frame.vertices {
        assert_eq!(vertex.alive, Cell::Alive);
        assert_eq!(vertex.alive.as_u8() as f32, 1.0);
        assert_eq!((vertex.row, vertex.column), (0, 0));
    }
    let xs: Vec<i64> = frame.vertices.iter().map(|v| v.ndc_x_numerator(1)).collect();
    let ys: Vec<i64> = frame.vertices.iter().map(|v| v.ndc_y_numerator(1)).collect();
    assert_eq!(*xs.iter().min().unwrap(), -1);
    assert_eq!(*xs.iter().max().unwrap(), 1);
    assert_eq!(*ys.iter().min().unwrap(), -1);
    assert_eq!(*ys.iter().max().unwrap(), 1);
}

#[test]
fn single_dead_cell_is_painted_too() {
    let frame = Painter::new().paint(&vec![Cell::Dead], 1, 1);
    assert_eq!(frame.vertices.len(), 6);
    for (k, vertex) in frame.vertices.iter().enumerate() {
        assert_eq!(
            *vertex,
            Vertex { row: 0, column: 0, corner: ORDER[k], alive: Cell::Dead }
        );
    }
}

#[test]
fn mesh_is_row_major_with_six_vertices_per_cell() {
    let cells = vec![Cell::Alive, Cell::Dead, Cell::Dead, Cell::Dead, Cell::Alive, Cell::Alive];
    let frame = Painter::new().paint(&cells, 3, 2);
    assert_eq!(frame.vertices.len(), 3 * 2 * 6);
    let mut expected = Vec::new();
    for row in 0..2u32 {
        for column in 0..3u32 {
            for corner in ORDER {
                expected.push(Vertex {
                    row,
                    column,
                    corner,
                    alive: cells[(row * 3 + column) as usize],
                });
            }
        }
    }
    assert_eq!(frame.vertices, expected);
    assert_eq!(
        frame.vertices[25],
        Vertex { row: 1, column: 1, corner: Corner::LowerRight, alive: Cell::Alive }
    );
    assert_eq!(
        frame.vertices[11],
        Vertex { row: 0, column: 1, corner: Corner::UpperRight, alive: Cell::Dead }
    );
}

#[test]
fn frame_carries_size_and_camera() {
    let mut painter = Painter::new();
    painter.setOffset(-5, 11);
    painter.setZoom(1.5f32.to_bits());
    let frame = painter.paint(&vec![Cell::Dead; 8], 4, 2);
    assert_eq!(frame.width, 4);
    assert_eq!(frame.height, 2);
    assert_eq!(frame.offset, (-5, 11));
    assert_eq!(f32::from_bits(frame.zoom), 1.5);
    assert_eq!(frame.vertices.len(), 48);
}

#[test]
fn paint_ignores_cells_beyond_the_grid() {
    let cells = vec![Cell::Dead, Cell::Alive, Cell::Alive, Cell::Alive];
    let frame = Painter::new().paint(&cells, 2, 1);
    assert_eq!(frame.vertices.len(), 12);
    assert_eq!(frame.vertices[0].alive, Cell::Dead);
    assert_eq!(frame.vertices[6].alive, Cell::Alive);
}

#[test]
fn paint_of_an_empty_grid_is_empty() {
    let frame = Painter::new().paint(&vec![], 0, 7);
    assert_eq!(frame.vertices.len(), 0);
    let frame = Painter::new().paint(&vec![], 7, 0);
    assert_eq!(frame.vertices.len(), 0);
}

#[test]
fn device_coordinates_are_exact_fractions() {
    let vertex = Vertex { row: 2, column: 1, corner: Corner::UpperRight, alive: Cell::Dead };
    // Column line 2 of 4: 2 * 2 / 4 - 1 = 0. Row line 3 of 8: 2 * 3 / 8 - 1 = -1/4.
    assert_eq!(vertex.ndc_x_numerator(4), 0);
    assert_eq!(vertex.ndc_y_numerator(8), -2);
    let vertex = Vertex { row: 2, column: 1, corner: Corner::LowerLeft, alive: Cell::Dead };
    assert_eq!(vertex.ndc_x_numerator(4), -2);
    assert_eq!(vertex.ndc_y_numerator(8), -4);
    let vertex = Vertex { row: 7, column: 3, corner: Corner::UpperLeft, alive: Cell::Dead };
    assert_eq!(vertex.ndc_x_numerator(4), 2);
    assert_eq!(vertex.ndc_y_numerator(8), 8);
    let vertex = Vertex {
        row: u32::MAX - 1,
        column: u32::MAX - 1,
        corner: Corner::UpperRight,
        alive: Cell::Dead,
    };
    assert_eq!(vertex.ndc_x_numerator(u32::MAX), u32::MAX as i64);
    assert_eq!(vertex.ndc_y_numerator(u32::MAX), u32::MAX as i64);
}

#[test]
fn every_vertex_lies_in_the_device_square() {
    let frame = Painter::new().paint(&vec![Cell::Alive; 35], 5, 7);
    for vertex in &frame.vertices {
        let x = vertex.ndc_x_numerator(5);
        let y = vertex.ndc_y_numerator(7);
        assert!(-5 <= x && x <= 5);
        assert!(-7 <= y && y <= 7);
    }
    let first = frame.vertices[0];
    assert_eq!((first.ndc_x_numerator(5), first.ndc_y_numerator(7)), (-5, -7));
    let last = frame.vertices[frame.vertices.len() - 1];
    assert_eq!((last.ndc_x_numerator(5), last.ndc_y_numerator(7)), (5, 7));
}

#[test]
fn corner_sides() {
    assert!(!Corner::LowerLeft.is_right());
    assert!(!Corner::LowerLeft.is_upper());
    assert!(Corner::LowerRight.is_right());
    assert!(!Corner::LowerRight.is_upper());
    assert!(!Corner::UpperLeft.is_right());
    assert!(Corner::UpperLeft.is_upper());
    assert!(Corner::UpperRight.is_right());
    assert!(Corner::UpperRight.is_upper());
}
