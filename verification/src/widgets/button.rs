use vstd::prelude::*;
use crate::geometry::{clamp_position, Point, Rect};
use crate::input::key_state::KeyState;
use crate::input::Input;
use crate::text::TextStyle;
use crate::widgets::{click_changed, click_state, shade, shade_of, track_click, Shade};

verus! {

/// A button is a widget that can be clicked.
pub struct Button {
    pub rect: Rect,
    pub corner_radius: Option<u16>,
    pub text_style: TextStyle,
    pub text: String,
    pub hovered: bool,
    pub state: KeyState,
}

impl Button {
    /// Whether the pointer is over a button occupying `rect`.
    pub open spec fn hovered_by(rect: crate::geometry::RectModel, input: &Input) -> bool {
        rect.contains(
            clamp_position(input.mouse.position.x as int),
            clamp_position(input.mouse.position.y as int),
        )
    }

    /// A button that is neither hovered nor pressed.
    pub fn new(rect: Rect, corner_radius: Option<u16>, text_style: TextStyle, text: String) -> (r: Self)
        ensures
            r.rect@ == rect@,
            r.corner_radius == corner_radius,
            r.text_style == text_style,
            r.text@ == text@,
            !r.hovered,
            r.state == KeyState::Up,
    {
        Button { rect, corner_radius, text_style, text, hovered: false, state: KeyState::new() }
    }

    pub fn set_text(&mut self, new_text: String)
        ensures
            final(self).text@ == new_text@,
            final(self).rect@ == old(self).rect@,
            final(self).corner_radius == old(self).corner_radius,
            final(self).text_style == old(self).text_style,
            final(self).hovered == old(self).hovered,
            final(self).state == old(self).state,
    {
        self.text = new_text;
    }

    /// Runs one frame: follows the pointer and the left button. Returns
    /// whether the button needs redrawing.
    pub fn update(&mut self, input: &Input) -> (changed: bool)
        ensures
            final(self).state == click_state(
                old(self).state,
                Button::hovered_by(old(self).rect@, input),
                input.mouse.left_button,
            ),
            final(self).hovered == Button::hovered_by(old(self).rect@, input),
            changed == click_changed(
                old(self).state,
                old(self).hovered,
                Button::hovered_by(old(self).rect@, input),
                input.mouse.left_button,
            ),
            final(self).rect@ == old(self).rect@,
            final(self).corner_radius == old(self).corner_radius,
            final(self).text_style == old(self).text_style,
            final(self).text@ == old(self).text@,
    {
        let mouse_position = Point::new(input.mouse.position.x, input.mouse.position.y);
        let hovered = self.rect.contains_point(mouse_position);
        track_click(&mut self.state, &mut self.hovered, hovered, input.mouse.left_button)
    }

    /// The shade the button is drawn in.
    pub fn shade(&self) -> (r: Shade)
        ensures
            r == shade_of(self.state, self.hovered),
    {
        shade(self.state, self.hovered)
    }
}

} // verus!
