//! The fixed view settings of one session: where the board sits in the
//! window and where the menu places its title and its two mode buttons. All
//! positions and sizes are whole pixels; colors are left to the rasterizer.

use vstd::prelude::*;
use crate::geometry::{Rect, ViewportGeometry};

verus! {

/// Horizontal offset of a button's label inside the single-player button.
pub const SP_LABEL_DX: u32 = 50;

/// Horizontal offset of a button's label inside the multi-player button.
pub const MP_LABEL_DX: u32 = 45;

/// Vertical offset of a button's label inside either button.
pub const LABEL_DY: u32 = 37;

/// Layout of the view, immutable for the session: board geometry, the menu
/// title's position, and the two menu buttons with their shared size.
#[derive(Clone, Copy, Debug, PartialEq, Eq, Structural)]
pub struct ViewSettings {
    pub geometry: ViewportGeometry,
    pub title_x: u32,
    pub title_y: u32,
    pub button_w: u32,
    pub button_h: u32,
    pub sp_button_x: u32,
    pub sp_button_y: u32,
    pub mp_button_x: u32,
    pub mp_button_y: u32,
}

impl ViewSettings {
    /// The single-player button's rectangle.
    pub open spec fn spec_sp_button(self) -> Rect {
        Rect { x: self.sp_button_x, y: self.sp_button_y, w: self.button_w, h: self.button_h }
    }

    /// The multi-player button's rectangle.
    pub open spec fn spec_mp_button(self) -> Rect {
        Rect { x: self.mp_button_x, y: self.mp_button_y, w: self.button_w, h: self.button_h }
    }

    /// Well-formedness: the geometry is well formed, both buttons stay
    /// addressable, and the buttons are large enough that their labels sit
    /// inside them at the fixed label offsets.
    pub open spec fn wf(self) -> bool {
        &&& self.geometry.wf()
        &&& self.spec_sp_button().wf()
        &&& self.spec_mp_button().wf()
        &&& SP_LABEL_DX <= self.button_w
        &&& MP_LABEL_DX <= self.button_w
        &&& LABEL_DY <= self.button_h
    }

    pub fn sp_button(&self) -> (r: Rect)
        ensures
            r == self.spec_sp_button(),
    {
        Rect { x: self.sp_button_x, y: self.sp_button_y, w: self.button_w, h: self.button_h }
    }

    pub fn mp_button(&self) -> (r: Rect)
        ensures
            r == self.spec_mp_button(),
    {
        Rect { x: self.mp_button_x, y: self.mp_button_y, w: self.button_w, h: self.button_h }
    }

    /// The default session layout: a 600-pixel board offset by (20, 20),
    /// the title at (220, 100), and two 150 by 45 buttons at (245, 150) and
    /// (245, 210).
    pub fn new() -> (s: ViewSettings)
        ensures
            s.wf(),
            s.geometry == (ViewportGeometry { origin_x: 20, origin_y: 20, edge: 600 }),
            s.title_x == 220 && s.title_y == 100,
            s.button_w == 150 && s.button_h == 45,
            s.sp_button_x == 245 && s.sp_button_y == 150,
            s.mp_button_x == 245 && s.mp_button_y == 210,
    {
        ViewSettings {
            geometry: ViewportGeometry { origin_x: 20, origin_y: 20, edge: 600 },
            title_x: 220,
            title_y: 100,
            button_w: 150,
            button_h: 45,
            sp_button_x: 245,
            sp_button_y: 150,
            mp_button_x: 245,
            mp_button_y: 210,
        }
    }
}

} // verus!
