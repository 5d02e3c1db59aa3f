use chessview::board::{BoardSnapshot, Piece, PieceKind, Side, Square};
use chessview::controller::{ControllerEffect, ViewController};
use chessview::selection::SelectionState;
use chessview::session::{menu_click_mode, SessionMode};
use chessview::settings::ViewSettings;

fn snapshot_with(pieces: &[(u8, PieceKind, Side)]) -> BoardSnapshot {
    let mut cells: Vec<Option<Piece>> = vec![None; 64];
    for &(idx, kind, side) in pieces {
        cells[idx as usize] = Some(Piece { kind, side });
    }
    BoardSnapshot::from_cells(cells)
}

#[test]
fn menu_buttons_pick_the_session_mode() {
    let st = ViewSettings::new();
    // Inside the single-player button.
    assert_eq!(menu_click_mode(&st, 250, 160), SessionMode::LocalPlay);
    // Inside the multi-player button.
    assert_eq!(menu_click_mode(&st, 250, 220), SessionMode::RemoteWaiting);
    // Between and outside the buttons: the menu stays open.
    assert_eq!(menu_click_mode(&st, 250, 200), SessionMode::Menu);
    assert_eq!(menu_click_mode(&st, 10, 10), SessionMode::Menu);
    // Button containment is half-open: the far edges miss.
    assert_eq!(menu_click_mode(&st, 395, 160), SessionMode::Menu);
    assert_eq!(menu_click_mode(&st, 250, 255), SessionMode::Menu);
}

#[test]
fn multiplayer_button_owes_the_handshake() {
    let st = ViewSettings::new();
    let snapshot = BoardSnapshot::empty();
    let mut c = ViewController::new();
    assert_eq!(c.mode, SessionMode::Menu);
    let effect = c.on_click(250, 220, &st, &snapshot);
    assert_eq!(c.mode, SessionMode::RemoteWaiting);
    assert_eq!(effect, ControllerEffect::BeginHandshake);
}

#[test]
fn singleplayer_button_enters_local_play_silently() {
    let st = ViewSettings::new();
    let snapshot = BoardSnapshot::empty();
    let mut c = ViewController::new();
    let effect = c.on_click(250, 160, &st, &snapshot);
    assert_eq!(c.mode, SessionMode::LocalPlay);
    assert_eq!(effect, ControllerEffect::NoEffect);
}

#[test]
fn board_clicks_are_ignored_in_the_menu() {
    let st = ViewSettings::new();
    let snapshot = snapshot_with(&[(56, PieceKind::Pawn, Side::White)]);
    let mut c = ViewController::new();
    // (25, 585) is square 56, but in the menu no board handler runs.
    let effect = c.on_click(25, 585, &st, &snapshot);
    assert_eq!(c.mode, SessionMode::Menu);
    assert_eq!(c.selection, SelectionState::Idle);
    assert_eq!(effect, ControllerEffect::NoEffect);
}

#[test]
fn click_sequence_arms_then_submits() {
    let st = ViewSettings::new();
    let snapshot = snapshot_with(&[(56, PieceKind::Pawn, Side::White)]);
    let mut c = ViewController { mode: SessionMode::LocalPlay, selection: SelectionState::Idle };

    // First click: (25, 585) is the occupied square 56 — it becomes armed.
    let effect = c.on_click(25, 585, &st, &snapshot);
    let origin = Square::new(56);
    assert_eq!(c.selection, SelectionState::Armed(origin));
    assert_eq!(effect, ControllerEffect::MarkOrigin(origin));

    // Second click: square 40 (file "a", rank "3") — the move is submitted
    // and the machine disarms, whatever the engine will answer.
    let effect = c.on_click(25, 435, &st, &snapshot);
    assert_eq!(c.selection, SelectionState::Idle);
    assert_eq!(effect, ControllerEffect::SubmitMove(origin, Square::new(40)));
}

#[test]
fn empty_click_while_idle_changes_nothing() {
    let st = ViewSettings::new();
    let snapshot = snapshot_with(&[(56, PieceKind::Pawn, Side::White)]);
    let mut c = ViewController { mode: SessionMode::LocalPlay, selection: SelectionState::Idle };
    let before_mode = c.mode;
    let before_selection = c.selection;
    // Square 0 is empty.
    let effect = c.on_click(25, 25, &st, &snapshot);
    assert_eq!(c.mode, before_mode);
    assert_eq!(c.selection, before_selection);
    assert_eq!(effect, ControllerEffect::NoEffect);
}

#[test]
fn misses_change_nothing_during_play() {
    let st = ViewSettings::new();
    let snapshot = snapshot_with(&[(56, PieceKind::Pawn, Side::White)]);
    let mut c = ViewController {
        mode: SessionMode::LocalPlay,
        selection: SelectionState::Armed(Square::new(56)),
    };
    let effect = c.on_click(5, 5, &st, &snapshot);
    assert_eq!(c.selection, SelectionState::Armed(Square::new(56)));
    assert_eq!(effect, ControllerEffect::NoEffect);
}

#[test]
fn waiting_session_ignores_board_clicks() {
    let st = ViewSettings::new();
    let snapshot = snapshot_with(&[(56, PieceKind::Pawn, Side::White)]);
    let mut c = ViewController {
        mode: SessionMode::RemoteWaiting,
        selection: SelectionState::Idle,
    };
    let effect = c.on_click(25, 585, &st, &snapshot);
    assert_eq!(c.mode, SessionMode::RemoteWaiting);
    assert_eq!(c.selection, SelectionState::Idle);
    assert_eq!(effect, ControllerEffect::NoEffect);
}

#[test]
fn handshake_signal_activates_only_a_waiting_session() {
    let mut c = ViewController {
        mode: SessionMode::RemoteWaiting,
        selection: SelectionState::Idle,
    };
    c.on_net_ready();
    assert_eq!(c.mode, SessionMode::RemoteActive);

    let mut c = ViewController { mode: SessionMode::Menu, selection: SelectionState::Idle };
    c.on_net_ready();
    assert_eq!(c.mode, SessionMode::Menu);

    let mut c = ViewController { mode: SessionMode::LocalPlay, selection: SelectionState::Idle };
    c.on_net_ready();
    assert_eq!(c.mode, SessionMode::LocalPlay);
}

#[test]
fn active_remote_session_accepts_board_clicks() {
    let st = ViewSettings::new();
    let snapshot = snapshot_with(&[(8, PieceKind::Rook, Side::Black)]);
    let mut c = ViewController {
        mode: SessionMode::RemoteActive,
        selection: SelectionState::Idle,
    };
    // Square 8: file "a", second row from the top.
    let effect = c.on_click(25, 100, &st, &snapshot);
    assert_eq!(c.selection, SelectionState::Armed(Square::new(8)));
    assert_eq!(effect, ControllerEffect::MarkOrigin(Square::new(8)));
}

#[test]
fn snapshot_reads_back_its_cells() {
    let snapshot = snapshot_with(&[(3, PieceKind::Queen, Side::Black)]);
    assert_eq!(
        snapshot.get(Square::new(3)),
        Some(Piece { kind: PieceKind::Queen, side: Side::Black })
    );
    assert_eq!(snapshot.get(Square::new(4)), None);
    assert!(snapshot.occupied(Square::new(3)));
    assert!(!snapshot.occupied(Square::new(4)));
}
