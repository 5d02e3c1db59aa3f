//! The session-mode switch: the top-level mode gating which handlers run
//! each frame, the menu hit-test that leaves the menu, and the transition
//! fired when the remote session reports a completed handshake.

use vstd::prelude::*;
use crate::settings::ViewSettings;

verus! {

/// Top-level session mode. Transitions are one-directional: `Menu` is left
/// for `LocalPlay` or `RemoteWaiting` by a menu click, `RemoteWaiting`
/// advances to `RemoteActive` when the remote handshake completes, and no
/// mode ever returns to `Menu`.
#[derive(Clone, Copy, Debug, PartialEq, Eq, Structural)]
pub enum SessionMode {
    Menu,
    LocalPlay,
    RemoteWaiting,
    RemoteActive,
}

impl SessionMode {
    /// Whether board clicks reach the selection machine in this mode: only
    /// during play. In `RemoteWaiting` the board is neither rendered nor
    /// clickable, and in `Menu` there is no board yet.
    pub open spec fn spec_board_clickable(self) -> bool {
        self == SessionMode::LocalPlay || self == SessionMode::RemoteActive
    }

    pub fn board_clickable(self) -> (b: bool)
        ensures
            b == self.spec_board_clickable(),
    {
        match self {
            SessionMode::LocalPlay => true,
            SessionMode::RemoteActive => true,
            _ => false,
        }
    }
}

/// The mode a menu click leads to: the multi-player button wins where the
/// two buttons overlap (it is tested first), the single-player button
/// otherwise, and a click on neither leaves the menu open.
pub open spec fn spec_menu_click_mode(settings: ViewSettings, px: int, py: int) -> SessionMode {
    if settings.spec_mp_button().spec_contains(px, py) {
        SessionMode::RemoteWaiting
    } else if settings.spec_sp_button().spec_contains(px, py) {
        SessionMode::LocalPlay
    } else {
        SessionMode::Menu
    }
}

/// Decides the mode a click in the menu leads to, hit-testing the two fixed
/// button rectangles with the same half-open containment the board uses.
pub fn menu_click_mode(settings: &ViewSettings, px: i64, py: i64) -> (m: SessionMode)
    requires
        settings.wf(),
    ensures
        m == spec_menu_click_mode(*settings, px as int, py as int),
{
    if settings.mp_button().contains(px, py) {
        SessionMode::RemoteWaiting
    } else if settings.sp_button().contains(px, py) {
        SessionMode::LocalPlay
    } else {
        SessionMode::Menu
    }
}

/// The mode after the remote session signals a completed handshake: only a
/// waiting session becomes active; every other mode ignores the signal.
pub open spec fn spec_mode_after_net_ready(mode: SessionMode) -> SessionMode {
    if mode == SessionMode::RemoteWaiting {
        SessionMode::RemoteActive
    } else {
        mode
    }
}

} // verus!
