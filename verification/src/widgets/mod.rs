pub mod button;
pub mod switch;
pub mod slider;
pub mod text_input;

use vstd::prelude::*;
use crate::geometry::{Rect, RectModel};
use crate::input::key_state::KeyState;

verus! {

/// Which way a bar-shaped widget runs.
#[derive(PartialEq, Eq, Debug, Clone, Copy, Structural)]
pub enum Orientation {
    Horizontal,
    Vertical,
}

impl Orientation {
    /// A widget runs along its longer side; a square one runs vertically.
    pub open spec fn of_model(rect: RectModel) -> Orientation {
        if rect.w > rect.h {
            Orientation::Horizontal
        } else {
            Orientation::Vertical
        }
    }

    /// The orientation of a widget occupying `rect`.
    pub fn of_rect(rect: &Rect) -> (r: Orientation)
        ensures
            r == Orientation::of_model(rect@),
    {
        if rect.width() > rect.height() {
            Orientation::Horizontal
        } else {
            Orientation::Vertical
        }
    }
}

/// The length a thumb can travel along a bar: the long side minus the
/// short side.
pub open spec fn travel(rect: RectModel, orientation: Orientation) -> int {
    match orientation {
        Orientation::Horizontal => rect.w - rect.h,
        Orientation::Vertical => rect.h - rect.w,
    }
}

/// The short side of a bar.
pub open spec fn thickness_of(rect: RectModel, orientation: Orientation) -> int {
    match orientation {
        Orientation::Horizontal => rect.h,
        Orientation::Vertical => rect.w,
    }
}

/// The shade a clickable widget is drawn in.
#[derive(PartialEq, Eq, Debug, Clone, Copy, Structural)]
pub enum Shade {
    Normal,
    Hovered,
    Pushed,
}

/// A widget that is pressed or held is drawn pushed; otherwise a widget
/// under the pointer is drawn hovered.
pub open spec fn shade_of(state: KeyState, hovered: bool) -> Shade {
    if state == KeyState::Pressed || state == KeyState::Down {
        Shade::Pushed
    } else if hovered {
        Shade::Hovered
    } else {
        Shade::Normal
    }
}

/// The shade for a widget in `state`, `hovered` or not.
pub fn shade(state: KeyState, hovered: bool) -> (r: Shade)
    ensures
        r == shade_of(state, hovered),
{
    if state.is_pressed() || state.is_down() {
        Shade::Pushed
    } else if hovered {
        Shade::Hovered
    } else {
        Shade::Normal
    }
}

/// The state of a clickable widget after a frame in which the pointer is
/// over it or not (`hovered`) and the left button is in `left`: a press of
/// the button over the widget presses it; letting go of the button releases
/// a held widget, wherever the pointer is.
pub open spec fn click_state(state: KeyState, hovered: bool, left: KeyState) -> KeyState {
    let s = state.next_frame();
    if left == KeyState::Pressed && hovered {
        KeyState::Pressed
    } else if s == KeyState::Down && left == KeyState::Released {
        KeyState::Released
    } else {
        s
    }
}

/// Whether a frame changes how a clickable widget looks: the pointer moved
/// onto or off it, or it was pressed or released.
pub open spec fn click_changed(state: KeyState, was_hovered: bool, hovered: bool, left: KeyState) -> bool {
    let s = state.next_frame();
    hovered != was_hovered || (left == KeyState::Pressed && hovered) || (s == KeyState::Down && left
        == KeyState::Released)
}

/// Runs one frame of the click cycle shared by buttons, switches and
/// sliders. Returns whether the widget needs redrawing.
pub(crate) fn track_click(state: &mut KeyState, was_hovered: &mut bool, hovered: bool, left: KeyState) -> (changed: bool)
    ensures
        *final(state) == click_state(*old(state), hovered, left),
        *final(was_hovered) == hovered,
        changed == click_changed(*old(state), *old(was_hovered), hovered, left),
{
    let mut changed = false;
    state.update();
    if hovered != *was_hovered {
        *was_hovered = hovered;
        changed = true;
    }
    if left.is_pressed() && *was_hovered {
        state.press();
        changed = true;
    } else if state.is_down() && left.is_released() {
        state.release();
        changed = true;
    }
    changed
}

} // verus!
