//! The coordinate mapper: exact, reversible transforms between pointer
//! positions in window pixels and board squares, plus the axis-aligned
//! rectangles the renderer fills.
//!
//! All containment checks are half-open — lower bound inclusive, upper bound
//! exclusive — so no boundary pixel row or column is counted twice.

use vstd::prelude::*;
use crate::board::Square;

verus! {

/// An axis-aligned pixel rectangle: top-left corner plus width and height.
#[derive(Clone, Copy, Debug, PartialEq, Eq, Structural)]
pub struct Rect {
    pub x: u32,
    pub y: u32,
    pub w: u32,
    pub h: u32,
}

impl Rect {
    /// A rectangle is well formed when its far corner is still addressable.
    pub open spec fn wf(self) -> bool {
        &&& self.x + self.w <= u32::MAX
        &&& self.y + self.h <= u32::MAX
    }

    /// Half-open containment: the top and left edges belong to the
    /// rectangle, the bottom and right edges do not.
    pub open spec fn spec_contains(self, px: int, py: int) -> bool {
        &&& self.x <= px < self.x + self.w
        &&& self.y <= py < self.y + self.h
    }

    /// Whether the point lies inside the rectangle (half-open on both axes).
    pub fn contains(&self, px: i64, py: i64) -> (b: bool)
        requires
            self.wf(),
        ensures
            b == self.spec_contains(px as int, py as int),
    {
        let x = self.x as i64;
        let y = self.y as i64;
        x <= px && px < x + self.w as i64 && y <= py && py < y + self.h as i64
    }
}

/// Where the board sits in the window: the top-left origin offset and the
/// board's edge length in pixels. Fixed for the whole session.
#[derive(Clone, Copy, Debug, PartialEq, Eq, Structural)]
pub struct ViewportGeometry {
    pub origin_x: u32,
    pub origin_y: u32,
    pub edge: u32,
}

impl ViewportGeometry {
    /// Well-formedness: the edge is positive and divides evenly into the 8
    /// cells of a row, so the per-cell size is exact and the pixel-to-square
    /// map is the precise inverse of the square-to-rectangle map; and the
    /// whole window rectangle (board plus symmetric margins) stays
    /// addressable in `u32`.
    pub open spec fn wf(self) -> bool {
        &&& 0 < self.edge
        &&& self.edge % 8 == 0
        &&& 2 * self.origin_x + self.edge <= u32::MAX
        &&& 2 * self.origin_y + self.edge <= u32::MAX
    }

    /// The derived per-cell size: an eighth of the board edge.
    pub open spec fn spec_cell_size(self) -> int {
        self.edge as int / 8
    }

    /// The board's pixel rectangle `[origin_x, origin_y, edge, edge]`.
    pub open spec fn spec_board_rect(self) -> Rect {
        Rect { x: self.origin_x, y: self.origin_y, w: self.edge, h: self.edge }
    }

    /// The window rectangle the board is centered in: the board plus the
    /// origin offset repeated as a margin on the far side.
    pub open spec fn spec_window_rect(self) -> Rect {
        Rect {
            x: 0,
            y: 0,
            w: (2 * self.origin_x + self.edge) as u32,
            h: (2 * self.origin_y + self.edge) as u32,
        }
    }

    pub fn cell_size(&self) -> (c: u32)
        requires
            self.wf(),
        ensures
            c as int == self.spec_cell_size(),
            0 < c,
    {
        self.edge / 8
    }

    pub fn board_rect(&self) -> (r: Rect)
        requires
            self.wf(),
        ensures
            r == self.spec_board_rect(),
            r.wf(),
    {
        Rect { x: self.origin_x, y: self.origin_y, w: self.edge, h: self.edge }
    }

    pub fn window_rect(&self) -> (r: Rect)
        requires
            self.wf(),
        ensures
            r == self.spec_window_rect(),
            r.wf(),
    {
        Rect { x: 0, y: 0, w: 2 * self.origin_x + self.edge, h: 2 * self.origin_y + self.edge }
    }
}

/// The square a pointer position falls on: `None` exactly when the point
/// misses the half-open board area `[origin, origin + edge)` on either axis,
/// otherwise the square whose file and row are the local coordinates divided
/// by the cell size.
pub open spec fn spec_pixel_to_square(g: ViewportGeometry, px: int, py: int) -> Option<Square> {
    if g.spec_board_rect().spec_contains(px, py) {
        let file = (px - g.origin_x) / g.spec_cell_size();
        let row_from_top = (py - g.origin_y) / g.spec_cell_size();
        Some(Square { idx: (row_from_top * 8 + file) as u8 })
    } else {
        None
    }
}

/// The pixel rectangle of one square: its top-left corner at the origin plus
/// file and row times the cell size, and the cell size as both edge lengths.
pub open spec fn spec_square_to_pixel_rect(s: Square, g: ViewportGeometry) -> Rect {
    Rect {
        x: (g.origin_x + s.spec_file() * g.spec_cell_size()) as u32,
        y: (g.origin_y + s.spec_row_from_top() * g.spec_cell_size()) as u32,
        w: g.spec_cell_size() as u32,
        h: g.spec_cell_size() as u32,
    }
}

/// A quotient stays within its row of multiples: if `k*c <= a < (k+1)*c`
/// then `a / c == k`.
proof fn lemma_div_in_band(a: int, k: int, c: int)
    requires
        0 < c,
        k * c <= a < (k + 1) * c,
    ensures
        a / c == k,
{
    assert(a == c * k + (a - k * c)) by (nonlinear_arith);
    assert(0 <= a - k * c < c) by (nonlinear_arith)
        requires
            0 < c,
            k * c <= a < (k + 1) * c,
    ;
    vstd::arithmetic::div_mod::lemma_fundamental_div_mod_converse_div(a, c, k, a - k * c);
}

/// Maps a pointer position (window pixels; negative coordinates are simply a
/// miss) to the board square it falls on, or `None` when it falls outside
/// the board area.
pub fn pixel_to_square(px: i64, py: i64, g: &ViewportGeometry) -> (r: Option<Square>)
    requires
        g.wf(),
    ensures
        r == spec_pixel_to_square(*g, px as int, py as int),
        r is Some ==> r->0.wf(),
        r is Some <==> g.spec_board_rect().spec_contains(px as int, py as int),
{
    let ox = g.origin_x as i64;
    let oy = g.origin_y as i64;
    let edge = g.edge as i64;
    if px < ox || px >= ox + edge || py < oy || py >= oy + edge {
        return None;
    }
    let cell = g.cell_size() as i64;
    let local_x = px - ox;
    let local_y = py - oy;
    let file = local_x / cell;
    let row_from_top = local_y / cell;
    proof {
        assert(g.edge == 8 * g.spec_cell_size());
        assert(0 <= file < 8) by {
            assert((cell as int) * 8 == 8 * (cell as int)) by (nonlinear_arith);
            assert(0 <= local_x < (cell as int) * 8);
            vstd::arithmetic::div_mod::lemma_div_pos_is_pos(local_x as int, cell as int);
            vstd::arithmetic::div_mod::lemma_multiply_divide_lt(local_x as int, cell as int, 8);
        }
        assert(0 <= row_from_top < 8) by {
            assert((cell as int) * 8 == 8 * (cell as int)) by (nonlinear_arith);
            assert(0 <= local_y < (cell as int) * 8);
            vstd::arithmetic::div_mod::lemma_div_pos_is_pos(local_y as int, cell as int);
            vstd::arithmetic::div_mod::lemma_multiply_divide_lt(local_y as int, cell as int, 8);
        }
    }
    Some(Square { idx: (row_from_top * 8 + file) as u8 })
}

/// The exact inverse of `pixel_to_square`: the pixel rectangle of one
/// square, used identically by the renderer and by hit-testing.
pub fn square_to_pixel_rect(s: Square, g: &ViewportGeometry) -> (r: Rect)
    requires
        s.wf(),
        g.wf(),
    ensures
        r == spec_square_to_pixel_rect(s, *g),
        r.wf(),
{
    let cell = g.cell_size();
    let file = s.file() as u32;
    let row = s.row_from_top() as u32;
    proof {
        assert(g.edge == 8 * g.spec_cell_size());
        assert(file * g.spec_cell_size() + g.spec_cell_size() <= 8 * g.spec_cell_size())
            by (nonlinear_arith)
            requires
                0 <= file < 8,
                0 < g.spec_cell_size(),
        ;
        assert(row * g.spec_cell_size() + g.spec_cell_size() <= 8 * g.spec_cell_size())
            by (nonlinear_arith)
            requires
                0 <= row < 8,
                0 < g.spec_cell_size(),
        ;
    }
    Rect { x: g.origin_x + file * cell, y: g.origin_y + row * cell, w: cell, h: cell }
}

/// Round-trip law: every point inside a square's pixel rectangle maps back
/// to exactly that square.
pub proof fn lemma_pixel_square_round_trip(s: Square, g: ViewportGeometry, px: int, py: int)
    requires
        s.wf(),
        g.wf(),
        spec_square_to_pixel_rect(s, g).spec_contains(px, py),
    ensures
        spec_pixel_to_square(g, px, py) == Some(s),
{
    let cell = g.spec_cell_size();
    let file = s.spec_file();
    let row = s.spec_row_from_top();
    assert(g.edge == 8 * cell);
    assert(0 <= file < 8);
    assert(0 <= row < 8);
    assert(0 <= file * cell && (file + 1) * cell <= 8 * cell) by (nonlinear_arith)
        requires
            0 <= file < 8,
            0 < cell,
    ;
    assert(0 <= row * cell && (row + 1) * cell <= 8 * cell) by (nonlinear_arith)
        requires
            0 <= row < 8,
            0 < cell,
    ;
    assert(file * cell + cell == (file + 1) * cell) by (nonlinear_arith);
    assert(row * cell + cell == (row + 1) * cell) by (nonlinear_arith);
    assert(g.origin_x + file * cell + cell <= g.origin_x + g.edge <= u32::MAX);
    assert(g.origin_y + row * cell + cell <= g.origin_y + g.edge <= u32::MAX);
    let rect = spec_square_to_pixel_rect(s, g);
    assert(rect.x == g.origin_x + file * cell);
    assert(rect.y == g.origin_y + row * cell);
    assert(rect.w == cell && rect.h == cell);
    assert(g.spec_board_rect().spec_contains(px, py)) by (nonlinear_arith)
        requires
            g.origin_x + file * cell <= px < g.origin_x + file * cell + cell,
            g.origin_y + row * cell <= py < g.origin_y + row * cell + cell,
            (file + 1) * cell <= 8 * cell,
            (row + 1) * cell <= 8 * cell,
            g.edge == 8 * cell,
            g.spec_board_rect() == (Rect {
                x: g.origin_x,
                y: g.origin_y,
                w: g.edge,
                h: g.edge,
            }),
            0 < cell,
            0 <= file,
            0 <= row,
    ;

    // The local coordinates divide back to the square's file and row.
    let local_x = px - g.origin_x;
    let local_y = py - g.origin_y;
    assert(file * cell <= local_x < (file + 1) * cell) by (nonlinear_arith)
        requires
            g.origin_x + file * cell <= px < g.origin_x + file * cell + cell,
            local_x == px - g.origin_x,
    ;
    assert(row * cell <= local_y < (row + 1) * cell) by (nonlinear_arith)
        requires
            g.origin_y + row * cell <= py < g.origin_y + row * cell + cell,
            local_y == py - g.origin_y,
    ;
    lemma_div_in_band(local_x, file, cell);
    lemma_div_in_band(local_y, row, cell);
    assert(row * 8 + file == s.spec_index()) by {
        vstd::arithmetic::div_mod::lemma_fundamental_div_mod(s.spec_index(), 8);
    }
}

/// Miss law: every point outside the half-open board area
/// `[origin, origin + edge)` on either axis maps to no square at all.
pub proof fn lemma_pixel_outside_is_miss(g: ViewportGeometry, px: int, py: int)
    requires
        g.wf(),
        !g.spec_board_rect().spec_contains(px, py),
    ensures
        spec_pixel_to_square(g, px, py) is None,
{
}

} // verus!
