use chessview::board::Square;
use chessview::geometry::{pixel_to_square, square_to_pixel_rect, Rect, ViewportGeometry};

fn session_geometry() -> ViewportGeometry {
    ViewportGeometry { origin_x: 20, origin_y: 20, edge: 600 }
}

#[test]
fn bottom_left_click_maps_to_square_fifty_six() {
    // Geometry {origin:(20,20), edge:600}: a click at (25,585) lands on the
    // bottom-left corner square, file "a", rank "1", linear index 56.
    let g = session_geometry();
    let s = pixel_to_square(25, 585, &g).expect("click inside the board");
    assert_eq!(s.index(), 56);
    assert_eq!(s.file_label(), 'a');
    assert_eq!(s.rank_label(), '1');
}

#[test]
fn corner_squares_map_to_expected_indices() {
    let g = session_geometry();
    // Top-left pixel of the board.
    let s = pixel_to_square(20, 20, &g).expect("inside");
    assert_eq!(s.index(), 0);
    assert_eq!(s.file_label(), 'a');
    assert_eq!(s.rank_label(), '8');
    // Bottom-right pixel of the board (half-open: 619 is the last hit).
    let s = pixel_to_square(619, 619, &g).expect("inside");
    assert_eq!(s.index(), 63);
    assert_eq!(s.file_label(), 'h');
    assert_eq!(s.rank_label(), '1');
}

#[test]
fn points_outside_the_board_miss() {
    let g = session_geometry();
    // Left and above the origin, including negative window coordinates.
    assert_eq!(pixel_to_square(19, 300, &g), None);
    assert_eq!(pixel_to_square(300, 19, &g), None);
    assert_eq!(pixel_to_square(0, 0, &g), None);
    assert_eq!(pixel_to_square(-5, 300, &g), None);
    assert_eq!(pixel_to_square(300, -1, &g), None);
    // On and past the exclusive far edge.
    assert_eq!(pixel_to_square(620, 300, &g), None);
    assert_eq!(pixel_to_square(300, 620, &g), None);
    assert_eq!(pixel_to_square(10_000, 10_000, &g), None);
}

#[test]
fn boundary_pixels_are_counted_once() {
    let g = session_geometry();
    // The first cell is [20, 95) on each axis: 94 still hits square 0, 95
    // already hits the neighbour, so no pixel belongs to two squares.
    assert_eq!(pixel_to_square(94, 20, &g).unwrap().index(), 0);
    assert_eq!(pixel_to_square(95, 20, &g).unwrap().index(), 1);
    assert_eq!(pixel_to_square(20, 94, &g).unwrap().index(), 0);
    assert_eq!(pixel_to_square(20, 95, &g).unwrap().index(), 8);
}

#[test]
fn square_rect_has_cell_size_and_origin_offset() {
    let g = session_geometry();
    let r = square_to_pixel_rect(Square::new(0), &g);
    assert_eq!(r, Rect { x: 20, y: 20, w: 75, h: 75 });
    let r = square_to_pixel_rect(Square::new(63), &g);
    assert_eq!(r, Rect { x: 20 + 7 * 75, y: 20 + 7 * 75, w: 75, h: 75 });
    let r = square_to_pixel_rect(Square::new(56), &g);
    assert_eq!(r, Rect { x: 20, y: 20 + 7 * 75, w: 75, h: 75 });
}

#[test]
fn round_trip_holds_at_rect_corners_and_center() {
    // Every point inside a square's rectangle maps back to that square;
    // checked here at the four inside corners and the center of all 64.
    let g = session_geometry();
    for idx in 0..64u8 {
        let s = Square::new(idx);
        let r = square_to_pixel_rect(s, &g);
        let xs = [r.x as i64, (r.x + r.w - 1) as i64, (r.x + r.w / 2) as i64];
        let ys = [r.y as i64, (r.y + r.h - 1) as i64, (r.y + r.h / 2) as i64];
        for &px in xs.iter() {
            for &py in ys.iter() {
                let back = pixel_to_square(px, py, &g).expect("inside the board");
                assert_eq!(back.index(), idx);
            }
        }
    }
}

#[test]
fn round_trip_holds_for_every_pixel_of_one_square() {
    let g = session_geometry();
    let s = Square::new(27);
    let r = square_to_pixel_rect(s, &g);
    for px in r.x..r.x + r.w {
        for py in r.y..r.y + r.h {
            let back = pixel_to_square(px as i64, py as i64, &g).expect("inside the board");
            assert_eq!(back.index(), 27);
        }
    }
}

#[test]
fn rect_containment_is_half_open() {
    let r = Rect { x: 245, y: 150, w: 150, h: 45 };
    assert!(r.contains(245, 150));
    assert!(r.contains(394, 194));
    assert!(!r.contains(395, 160));
    assert!(!r.contains(300, 195));
    assert!(!r.contains(244, 160));
    assert!(!r.contains(300, 149));
}

#[test]
fn square_attributes_follow_row_major_index() {
    let s = Square::new(12);
    assert_eq!(s.file(), 4);
    assert_eq!(s.row_from_top(), 1);
    assert_eq!(s.rank(), 6);
    assert_eq!(s.file_label(), 'e');
    assert_eq!(s.rank_label(), '7');
    let s = Square::from_file_row(4, 1);
    assert_eq!(s.index(), 12);
}
