//! The view controller: routes one input event through the mode switch, the
//! coordinate mapper and the selection machine, and hands back the one
//! request the surrounding event loop must forward to an external
//! collaborator — the board engine or the remote session.

use vstd::prelude::*;
use crate::board::{BoardSnapshot, Piece, Square};
use crate::geometry::spec_pixel_to_square;
use crate::geometry::pixel_to_square;
use crate::selection::{EngineRequest, SelectionState, spec_selection_step};
use crate::session::{SessionMode, menu_click_mode, spec_menu_click_mode, spec_mode_after_net_ready};
use crate::settings::ViewSettings;

verus! {

/// What the event loop must do after one click: nothing, one call into the
/// board engine, or starting the remote handshake. The controller itself
/// performs no outside work.
#[derive(Clone, Copy, Debug, PartialEq, Eq, Structural)]
pub enum ControllerEffect {
    /// The click changed nothing outside the controller.
    NoEffect,
    /// Tell the board engine to mark the square as the pending move's origin.
    MarkOrigin(Square),
    /// Submit the move from origin to destination to the board engine.
    SubmitMove(Square, Square),
    /// Read the configured remote address and begin the session handshake.
    BeginHandshake,
}

/// The effect that forwards one selection-machine request to the engine.
pub open spec fn spec_effect_of_request(req: EngineRequest) -> ControllerEffect {
    match req {
        EngineRequest::NoRequest => ControllerEffect::NoEffect,
        EngineRequest::MarkOrigin(s) => ControllerEffect::MarkOrigin(s),
        EngineRequest::SubmitMove(o, d) => ControllerEffect::SubmitMove(o, d),
    }
}

/// The controller's whole step for one click at `(px, py)`: the next mode,
/// the next selection state, and the effect the event loop owes.
///
/// - In `Menu`, the click is hit-tested against the two mode buttons; a hit
///   on the multi-player button additionally owes the handshake start. The
///   selection is untouched.
/// - In `RemoteWaiting`, the board is not clickable: nothing changes — the
///   selection machine is short-circuited until the session is active.
/// - During play (`LocalPlay` or `RemoteActive`), the click is mapped to a
///   board square; a miss changes nothing, a hit advances the selection
///   machine and owes its request to the engine.
pub open spec fn spec_controller_click(
    mode: SessionMode,
    selection: SelectionState,
    px: int,
    py: int,
    settings: ViewSettings,
    snapshot: Seq<Option<Piece>>,
) -> (SessionMode, SelectionState, ControllerEffect) {
    match mode {
        SessionMode::Menu => {
            let next = spec_menu_click_mode(settings, px, py);
            let effect = if next == SessionMode::RemoteWaiting {
                ControllerEffect::BeginHandshake
            } else {
                ControllerEffect::NoEffect
            };
            (next, selection, effect)
        },
        _ => {
            if mode.spec_board_clickable() {
                match spec_pixel_to_square(settings.geometry, px, py) {
                    Option::None => (mode, selection, ControllerEffect::NoEffect),
                    Option::Some(sq) => {
                        let occupied = snapshot[sq.spec_index()] is Some;
                        let step = spec_selection_step(selection, sq, occupied);
                        (mode, step.0, spec_effect_of_request(step.1))
                    },
                }
            } else {
                (mode, selection, ControllerEffect::NoEffect)
            }
        },
    }
}

/// The controller of one session: the top-level mode and the selection
/// state, advanced click by click.
pub struct ViewController {
    pub mode: SessionMode,
    pub selection: SelectionState,
}

impl ViewController {
    /// Well-formedness: an armed selection addresses a board square.
    pub open spec fn wf(self) -> bool {
        self.selection.wf()
    }

    /// A fresh controller: in the menu, nothing selected.
    pub fn new() -> (c: ViewController)
        ensures
            c.wf(),
            c.mode == SessionMode::Menu,
            c.selection == SelectionState::Idle,
    {
        ViewController { mode: SessionMode::Menu, selection: SelectionState::Idle }
    }

    /// Handles one click at window position `(px, py)` against the current
    /// frame's snapshot, and returns the effect the event loop must perform.
    pub fn on_click(
        &mut self,
        px: i64,
        py: i64,
        settings: &ViewSettings,
        snapshot: &BoardSnapshot,
    ) -> (effect: ControllerEffect)
        requires
            old(self).wf(),
            settings.wf(),
            snapshot.wf(),
        ensures
            final(self).wf(),
            (final(self).mode, final(self).selection, effect) == spec_controller_click(
                old(self).mode,
                old(self).selection,
                px as int,
                py as int,
                *settings,
                snapshot@,
            ),
    {
        match self.mode {
            SessionMode::Menu => {
                let next = menu_click_mode(settings, px, py);
                self.mode = next;
                if next == SessionMode::RemoteWaiting {
                    ControllerEffect::BeginHandshake
                } else {
                    ControllerEffect::NoEffect
                }
            },
            _ => {
                if self.mode.board_clickable() {
                    match pixel_to_square(px, py, &settings.geometry) {
                        Option::None => ControllerEffect::NoEffect,
                        Option::Some(sq) => {
                            let occupied = snapshot.occupied(sq);
                            let req = self.selection.on_board_click(sq, occupied);
                            match req {
                                EngineRequest::NoRequest => ControllerEffect::NoEffect,
                                EngineRequest::MarkOrigin(s) => ControllerEffect::MarkOrigin(s),
                                EngineRequest::SubmitMove(o, d) => ControllerEffect::SubmitMove(o, d),
                            }
                        },
                    }
                } else {
                    ControllerEffect::NoEffect
                }
            },
        }
    }

    /// Consumes the remote session's "handshake completed" signal: a waiting
    /// session becomes active, every other mode ignores it. The selection is
    /// untouched.
    pub fn on_net_ready(&mut self)
        requires
            old(self).wf(),
        ensures
            final(self).wf(),
            final(self).mode == spec_mode_after_net_ready(old(self).mode),
            final(self).selection == old(self).selection,
    {
        if self.mode == SessionMode::RemoteWaiting {
            self.mode = SessionMode::RemoteActive;
        }
    }
}

/// One-directionality law: no click and no handshake signal ever returns a
/// session to the menu; once play has begun, clicks never change the mode at
/// all.
pub proof fn lemma_modes_never_return_to_menu(
    mode: SessionMode,
    selection: SelectionState,
    px: int,
    py: int,
    settings: ViewSettings,
    snapshot: Seq<Option<Piece>>,
)
    ensures
        spec_controller_click(mode, selection, px, py, settings, snapshot).0 == SessionMode::Menu
            ==> mode == SessionMode::Menu,
        mode != SessionMode::Menu ==> spec_controller_click(
            mode,
            selection,
            px,
            py,
            settings,
            snapshot,
        ).0 == mode,
        spec_mode_after_net_ready(mode) == SessionMode::Menu ==> mode == SessionMode::Menu,
{
}

} // verus!
