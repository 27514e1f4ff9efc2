use pi_frame::layout::{CellGeometry, GridLayout, compute_layout};

#[test]
fn grid_2x2_display_1280x800() {
    let layout = GridLayout { horizontal: 2, vertical: 2 };
    let (cells, cell_w, cell_h) = compute_layout(1280, 800, layout);
    assert_eq!(cell_w, 640);
    assert_eq!(cell_h, 400);
    assert_eq!(cells.len(), 4);
    assert_eq!(cells[0], CellGeometry { x: 0, y: 0, width: 640, height: 400 });
    assert_eq!(cells[1], CellGeometry { x: 640, y: 0, width: 640, height: 400 });
    assert_eq!(cells[2], CellGeometry { x: 0, y: 400, width: 640, height: 400 });
    assert_eq!(cells[3], CellGeometry { x: 640, y: 400, width: 640, height: 400 });
}

#[test]
fn remainder_pixels_are_dropped_not_stretched() {
    let layout = GridLayout { horizontal: 3, vertical: 2 };
    let (cells, cell_w, cell_h) = compute_layout(1283, 801, layout);
    assert_eq!(cell_w, 427);
    assert_eq!(cell_h, 400);
    assert_eq!(cells.len(), 6);
    // Row-major positions are multiples of the floor cell size.
    assert_eq!((cells[0].x, cells[0].y), (0, 0));
    assert_eq!((cells[1].x, cells[1].y), (427, 0));
    assert_eq!((cells[2].x, cells[2].y), (854, 0));
    assert_eq!((cells[3].x, cells[3].y), (0, 400));
    assert_eq!((cells[4].x, cells[4].y), (427, 400));
    assert_eq!((cells[5].x, cells[5].y), (854, 400));
    // The rightmost cell ends at 1281 <= 1283: two columns of pixels unused.
    assert!(cells[2].x + cells[2].width <= 1283);
}

#[test]
fn single_cell_grid_takes_whole_display() {
    let layout = GridLayout { horizontal: 1, vertical: 1 };
    let (cells, cell_w, cell_h) = compute_layout(1920, 1080, layout);
    assert_eq!(cells.len(), 1);
    assert_eq!(cells[0], CellGeometry { x: 0, y: 0, width: 1920, height: 1080 });
    assert_eq!((cell_w, cell_h), (1920, 1080));
}

#[test]
fn cells_do_not_overlap() {
    let layout = GridLayout { horizontal: 4, vertical: 3 };
    let (cells, _, _) = compute_layout(1024, 768, layout);
    for a in 0..cells.len() {
        for b in 0..cells.len() {
            if a != b {
                let ca = &cells[a];
                let cb = &cells[b];
                let horizontally_apart =
                    ca.x + ca.width <= cb.x || cb.x + cb.width <= ca.x;
                let vertically_apart =
                    ca.y + ca.height <= cb.y || cb.y + cb.height <= ca.y;
                assert!(horizontally_apart || vertically_apart);
            }
        }
    }
}

#[test]
fn zero_grid_dimension_is_invalid() {
    assert!(!GridLayout { horizontal: 0, vertical: 2 }.check_valid());
    assert!(!GridLayout { horizontal: 2, vertical: 0 }.check_valid());
    assert!(GridLayout { horizontal: 2, vertical: 2 }.check_valid());
}
