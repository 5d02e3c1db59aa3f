//! The render composer: turns one frame's board snapshot, selection state
//! and session mode into an ordered list of abstract draw commands for the
//! external rasterizer.
//!
//! The order is a correctness contract, not a style choice: for every square
//! the base cell fill comes first (replaced by the highlight fill when the
//! square is armed), then the piece sprite, so the sprite stays visible over
//! a highlighted square; and the border stroke comes last of all so nothing
//! occludes it.

use vstd::prelude::*;
use crate::board::{BoardSnapshot, Piece, PieceKind, Side, Square};
use crate::geometry::{Rect, ViewportGeometry, spec_square_to_pixel_rect, square_to_pixel_rect};
use crate::selection::SelectionState;
use crate::session::SessionMode;
use crate::settings::{LABEL_DY, MP_LABEL_DX, SP_LABEL_DX, ViewSettings};

verus! {

/// Horizontal position of the status line shown while the remote session is
/// still waiting for its handshake.
pub const WAITING_TEXT_X: u32 = 120;

/// Vertical position of the waiting status line.
pub const WAITING_TEXT_Y: u32 = 250;

/// The fill of one board cell: one of the two checkerboard shades, or the
/// highlight replacing them on the armed square.
#[derive(Clone, Copy, Debug, PartialEq, Eq, Structural)]
pub enum CellShade {
    Light,
    Dark,
    Highlight,
}

/// Which fixed text a text command shows; the rasterizer owns the wording
/// and the font.
#[derive(Clone, Copy, Debug, PartialEq, Eq, Structural)]
pub enum TextTag {
    /// The menu title.
    Title,
    /// The label on the single-player button.
    SinglePlayerLabel,
    /// The label on the multi-player button.
    MultiPlayerLabel,
    /// The status line shown while the remote handshake is pending.
    WaitingStatus,
}

/// One abstract draw instruction for the external rasterizer, in frame
/// order.
#[derive(Clone, Copy, Debug, PartialEq, Eq, Structural)]
pub enum DrawCommand {
    /// Fill the whole window rectangle with the background color.
    Background { rect: Rect },
    /// Fill one board cell.
    CellFill { rect: Rect, shade: CellShade },
    /// Draw the sprite registered for `(kind, side)` over one cell.
    PieceSprite { rect: Rect, kind: PieceKind, side: Side },
    /// Stroke the border framing the whole board rectangle.
    BorderStroke { rect: Rect },
    /// Fill one menu button rectangle.
    ButtonFill { rect: Rect },
    /// Draw one of the fixed texts at a pixel position.
    Text { x: u32, y: u32, tag: TextTag },
}

/// The checkerboard shade of the square with linear index `i`, keyed off the
/// scan index itself: light exactly when `(i/8 + i + 1)` is even. The
/// top-left square (index 0) is dark, its right neighbour light, and the row
/// parity flips the pattern from one row to the next.
pub open spec fn spec_parity_shade(i: int) -> CellShade {
    if (i / 8 + i + 1) % 2 == 0 {
        CellShade::Light
    } else {
        CellShade::Dark
    }
}

/// The shade square `i` is filled with under a selection: the highlight on
/// the armed square, the checkerboard shade everywhere else.
pub open spec fn spec_cell_shade(selection: SelectionState, i: int) -> CellShade {
    match selection {
        SelectionState::Armed(s) => if s.spec_index() == i {
            CellShade::Highlight
        } else {
            spec_parity_shade(i)
        },
        SelectionState::Idle => spec_parity_shade(i),
    }
}

/// The pixel rectangle of the square with linear index `i`.
pub open spec fn spec_cell_rect(g: ViewportGeometry, i: int) -> Rect {
    spec_square_to_pixel_rect(Square { idx: i as u8 }, g)
}

/// The commands one square contributes: its cell fill, then — only when a
/// piece stands on it — the piece's sprite over the same rectangle.
pub open spec fn spec_square_commands(
    snapshot: Seq<Option<Piece>>,
    selection: SelectionState,
    g: ViewportGeometry,
    i: int,
) -> Seq<DrawCommand> {
    let fill = DrawCommand::CellFill {
        rect: spec_cell_rect(g, i),
        shade: spec_cell_shade(selection, i),
    };
    match snapshot[i] {
        Some(p) => seq![
            fill,
            DrawCommand::PieceSprite { rect: spec_cell_rect(g, i), kind: p.kind, side: p.side },
        ],
        None => seq![fill],
    }
}

/// The commands of the first `n` squares in row-major order.
pub open spec fn spec_board_cells(
    snapshot: Seq<Option<Piece>>,
    selection: SelectionState,
    g: ViewportGeometry,
    n: int,
) -> Seq<DrawCommand>
    decreases n,
{
    if n <= 0 {
        Seq::empty()
    } else {
        spec_board_cells(snapshot, selection, g, n - 1) + spec_square_commands(
            snapshot,
            selection,
            g,
            n - 1,
        )
    }
}

/// One full board frame: all 64 squares in row-major order, then the border
/// stroke framing the board, last so it is never occluded.
pub open spec fn spec_board_scene(
    snapshot: Seq<Option<Piece>>,
    selection: SelectionState,
    g: ViewportGeometry,
) -> Seq<DrawCommand> {
    spec_board_cells(snapshot, selection, g, 64).push(
        DrawCommand::BorderStroke { rect: g.spec_board_rect() },
    )
}

/// The menu frame: the window background, the title, the two mode buttons,
/// and their labels at the fixed offsets into the buttons.
pub open spec fn spec_menu_scene(st: ViewSettings) -> Seq<DrawCommand> {
    seq![
        DrawCommand::Background { rect: st.geometry.spec_window_rect() },
        DrawCommand::Text { x: st.title_x, y: st.title_y, tag: TextTag::Title },
        DrawCommand::ButtonFill { rect: st.spec_sp_button() },
        DrawCommand::ButtonFill { rect: st.spec_mp_button() },
        DrawCommand::Text {
            x: (st.sp_button_x + SP_LABEL_DX) as u32,
            y: (st.sp_button_y + LABEL_DY) as u32,
            tag: TextTag::SinglePlayerLabel,
        },
        DrawCommand::Text {
            x: (st.mp_button_x + MP_LABEL_DX) as u32,
            y: (st.mp_button_y + LABEL_DY) as u32,
            tag: TextTag::MultiPlayerLabel,
        },
    ]
}

/// The frame shown while the remote handshake is pending: only the window
/// background and the status line — the board is not rendered at all.
pub open spec fn spec_waiting_scene(st: ViewSettings) -> Seq<DrawCommand> {
    seq![
        DrawCommand::Background { rect: st.geometry.spec_window_rect() },
        DrawCommand::Text { x: WAITING_TEXT_X, y: WAITING_TEXT_Y, tag: TextTag::WaitingStatus },
    ]
}

/// The frame for one session mode: the menu in `Menu`, the full board
/// during play, and the two-command waiting frame in `RemoteWaiting`.
pub open spec fn spec_scene(
    snapshot: Seq<Option<Piece>>,
    selection: SelectionState,
    st: ViewSettings,
    mode: SessionMode,
) -> Seq<DrawCommand> {
    match mode {
        SessionMode::Menu => spec_menu_scene(st),
        SessionMode::LocalPlay => spec_board_scene(snapshot, selection, st.geometry),
        SessionMode::RemoteWaiting => spec_waiting_scene(st),
        SessionMode::RemoteActive => spec_board_scene(snapshot, selection, st.geometry),
    }
}

/// Composes the board frame: the 64 cell fills (with the armed square
/// highlighted) each followed by its piece sprite where one stands, then the
/// border stroke.
pub fn compose_board(
    snapshot: &BoardSnapshot,
    selection: SelectionState,
    g: &ViewportGeometry,
) -> (cmds: Vec<DrawCommand>)
    requires
        snapshot.wf(),
        selection.wf(),
        g.wf(),
    ensures
        cmds@ == spec_board_scene(snapshot@, selection, *g),
{
    let mut cmds: Vec<DrawCommand> = Vec::new();
    let mut i: usize = 0;
    while i < 64
        invariant
            i <= 64,
            snapshot.wf(),
            selection.wf(),
            g.wf(),
            cmds@ == spec_board_cells(snapshot@, selection, *g, i as int),
        decreases 64 - i,
    {
        let square = Square::new(i as u8);
        let rect = square_to_pixel_rect(square, g);
        let shade = cell_shade(selection, i as u8);
        cmds.push(DrawCommand::CellFill { rect, shade });
        let piece = snapshot.get(square);
        if let Some(p) = piece {
            cmds.push(DrawCommand::PieceSprite { rect, kind: p.kind, side: p.side });
        }
        proof {
            assert(cmds@ =~= spec_board_cells(snapshot@, selection, *g, i + 1));
        }
        i = i + 1;
    }
    let border = DrawCommand::BorderStroke { rect: g.board_rect() };
    cmds.push(border);
    cmds
}

/// The shade of square `i` under the selection: highlight on the armed
/// square, checkerboard parity everywhere else.
pub fn cell_shade(selection: SelectionState, i: u8) -> (shade: CellShade)
    requires
        i < 64,
        selection.wf(),
    ensures
        shade == spec_cell_shade(selection, i as int),
{
    match selection {
        SelectionState::Armed(s) => {
            if s.index() == i {
                CellShade::Highlight
            } else {
                parity_shade(i)
            }
        },
        SelectionState::Idle => parity_shade(i),
    }
}

/// The checkerboard shade of square `i`.
pub fn parity_shade(i: u8) -> (shade: CellShade)
    requires
        i < 64,
    ensures
        shade == spec_parity_shade(i as int),
{
    if (i / 8 + i + 1) % 2 == 0 {
        CellShade::Light
    } else {
        CellShade::Dark
    }
}

/// Composes the menu frame.
pub fn compose_menu(st: &ViewSettings) -> (cmds: Vec<DrawCommand>)
    requires
        st.wf(),
    ensures
        cmds@ == spec_menu_scene(*st),
{
    let mut cmds: Vec<DrawCommand> = Vec::new();
    cmds.push(DrawCommand::Background { rect: st.geometry.window_rect() });
    cmds.push(DrawCommand::Text { x: st.title_x, y: st.title_y, tag: TextTag::Title });
    cmds.push(DrawCommand::ButtonFill { rect: st.sp_button() });
    cmds.push(DrawCommand::ButtonFill { rect: st.mp_button() });
    cmds.push(
        DrawCommand::Text {
            x: st.sp_button_x + SP_LABEL_DX,
            y: st.sp_button_y + LABEL_DY,
            tag: TextTag::SinglePlayerLabel,
        },
    );
    cmds.push(
        DrawCommand::Text {
            x: st.mp_button_x + MP_LABEL_DX,
            y: st.mp_button_y + LABEL_DY,
            tag: TextTag::MultiPlayerLabel,
        },
    );
    proof {
        assert(cmds@ =~= spec_menu_scene(*st));
    }
    cmds
}

/// Composes the waiting frame: background plus status line, nothing else.
pub fn compose_waiting(st: &ViewSettings) -> (cmds: Vec<DrawCommand>)
    requires
        st.wf(),
    ensures
        cmds@ == spec_waiting_scene(*st),
{
    let mut cmds: Vec<DrawCommand> = Vec::new();
    cmds.push(DrawCommand::Background { rect: st.geometry.window_rect() });
    cmds.push(DrawCommand::Text { x: WAITING_TEXT_X, y: WAITING_TEXT_Y, tag: TextTag::WaitingStatus });
    proof {
        assert(cmds@ =~= spec_waiting_scene(*st));
    }
    cmds
}

/// Composes one frame for the current session mode: the single entry point
/// the render tick calls. Total over every well-formed snapshot/selection
/// pair — no frame can fail to compose.
pub fn compose(
    snapshot: &BoardSnapshot,
    selection: SelectionState,
    st: &ViewSettings,
    mode: SessionMode,
) -> (cmds: Vec<DrawCommand>)
    requires
        snapshot.wf(),
        selection.wf(),
        st.wf(),
    ensures
        cmds@ == spec_scene(snapshot@, selection, *st, mode),
{
    match mode {
        SessionMode::Menu => compose_menu(st),
        SessionMode::LocalPlay => compose_board(snapshot, selection, &st.geometry),
        SessionMode::RemoteWaiting => compose_waiting(st),
        SessionMode::RemoteActive => compose_board(snapshot, selection, &st.geometry),
    }
}

/// Checkerboard law: the top-left square (index 0) and the bottom-right
/// square (index 63) carry the same shade — both dark — and any two
/// neighbouring squares of one row carry different shades.
#[verifier::rlimit(50)]
pub proof fn lemma_checkerboard_parity()
    ensures
        spec_parity_shade(0) == spec_parity_shade(63),
        spec_parity_shade(0) == CellShade::Dark,
        forall|i: int|
            0 <= i < 63 && i % 8 != 7 ==> #[trigger] spec_parity_shade(i) != spec_parity_shade(
                i + 1,
            ),
{
    assert forall|i: int| 0 <= i < 63 && i % 8 != 7 implies #[trigger] spec_parity_shade(i)
        != spec_parity_shade(i + 1) by {
        lemma_parity_alternates_in_row(i);
    }
}

/// Two neighbouring squares of one row (so `i` is not on the right edge)
/// carry different checkerboard shades.
proof fn lemma_parity_alternates_in_row(i: int)
    requires
        0 <= i < 63,
        i % 8 != 7,
    ensures
        spec_parity_shade(i) != spec_parity_shade(i + 1),
{
    let q = i / 8;
    let r = i % 8;
    vstd::arithmetic::div_mod::lemma_fundamental_div_mod(i, 8);
    assert(0 <= r < 8);
    vstd::arithmetic::div_mod::lemma_fundamental_div_mod_converse_div(i + 1, 8, q, r + 1);
    assert((i + 1) / 8 == q);
    assert((q + i + 2) % 2 != (q + i + 1) % 2);
}

/// Ordering law: a board frame is never empty and always ends with the
/// border stroke framing the board, so no later command can occlude it.
pub proof fn lemma_border_drawn_last(
    snapshot: Seq<Option<Piece>>,
    selection: SelectionState,
    g: ViewportGeometry,
)
    ensures
        spec_board_scene(snapshot, selection, g).len() > 0,
        spec_board_scene(snapshot, selection, g).last() == (DrawCommand::BorderStroke {
            rect: g.spec_board_rect(),
        }),
{
}

/// Waiting-frame law: in `RemoteWaiting` the composed frame holds exactly
/// two commands — the background fill and the status line — and not one cell
/// fill or piece sprite, whatever the snapshot and the selection hold.
pub proof fn lemma_waiting_scene_minimal(
    snapshot: Seq<Option<Piece>>,
    selection: SelectionState,
    st: ViewSettings,
)
    ensures
        spec_scene(snapshot, selection, st, SessionMode::RemoteWaiting).len() == 2,
        spec_scene(snapshot, selection, st, SessionMode::RemoteWaiting)[0] == (
        DrawCommand::Background { rect: st.geometry.spec_window_rect() }),
        spec_scene(snapshot, selection, st, SessionMode::RemoteWaiting)[1] == (DrawCommand::Text {
            x: WAITING_TEXT_X,
            y: WAITING_TEXT_Y,
            tag: TextTag::WaitingStatus,
        }),
        forall|j: int|
            0 <= j < 2 ==> !(spec_scene(snapshot, selection, st, SessionMode::RemoteWaiting)[j]
                is CellFill),
        forall|j: int|
            0 <= j < 2 ==> !(spec_scene(snapshot, selection, st, SessionMode::RemoteWaiting)[j]
                is PieceSprite),
{
}

} // verus!
