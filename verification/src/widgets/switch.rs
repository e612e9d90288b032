use vstd::prelude::*;
use crate::geometry::{clamp_position, clamp_size, Rect, RectModel};
use crate::input::key_state::KeyState;
use crate::input::Input;
use crate::widgets::{click_changed, click_state, thickness_of, track_click, travel, Orientation};

verus! {

/// A switch is a widget that can be toggled on or off.
pub struct Switch {
    pub rect: Rect,
    pub orientation: Orientation,
    pub corner_radius: Option<u16>,
    pub hovered: bool,
    pub state: KeyState,
    pub switched: bool,
}

/// The colour a switch is drawn in.
#[derive(PartialEq, Eq, Debug, Clone, Copy, Structural)]
pub enum SwitchShade {
    On,
    HoveredOn,
    Off,
    HoveredOff,
}

impl Switch {
    /// The switch runs along its longer side.
    pub open spec fn wf(&self) -> bool {
        self.orientation == Orientation::of_model(self.rect@)
    }

    /// Whether the pointer is over a switch occupying `rect`.
    pub open spec fn hovered_by(rect: RectModel, input: &Input) -> bool {
        rect.contains(
            clamp_position(input.mouse.position.x as int),
            clamp_position(input.mouse.position.y as int),
        )
    }

    /// A switch that is off, neither hovered nor pressed.
    pub fn new(rect: Rect, corner_radius: Option<u16>) -> (r: Self)
        ensures
            r.wf(),
            r.rect@ == rect@,
            r.corner_radius == corner_radius,
            !r.hovered,
            r.state == KeyState::Up,
            !r.switched,
    {
        let orientation = Orientation::of_rect(&rect);
        Switch {
            rect,
            orientation,
            corner_radius,
            hovered: false,
            state: KeyState::new(),
            switched: false,
        }
    }

    pub fn set_switched(&mut self, switched: bool)
        ensures
            final(self).switched == switched,
            final(self).rect@ == old(self).rect@,
            final(self).orientation == old(self).orientation,
            final(self).corner_radius == old(self).corner_radius,
            final(self).hovered == old(self).hovered,
            final(self).state == old(self).state,
    {
        self.switched = switched;
    }

    /// How far the thumb can travel: the long side minus the short side.
    pub fn length(&self) -> (r: u32)
        requires
            self.wf(),
        ensures
            r == travel(self.rect@, self.orientation),
    {
        match self.orientation {
            Orientation::Horizontal => self.rect.width() - self.rect.height(),
            Orientation::Vertical => self.rect.height() - self.rect.width(),
        }
    }

    /// The short side of the switch.
    pub fn thickness(&self) -> (r: u32)
        ensures
            r == thickness_of(self.rect@, self.orientation),
    {
        match self.orientation {
            Orientation::Horizontal => self.rect.height(),
            Orientation::Vertical => self.rect.width(),
        }
    }

    /// Where the thumb sits along the switch: at the start when off, at the
    /// end when on.
    pub fn thumb_position(&self) -> (r: u32)
        requires
            self.wf(),
        ensures
            r == if self.switched {
                travel(self.rect@, self.orientation)
            } else {
                0
            },
    {
        (if self.switched {
            1u32
        } else {
            0u32
        }) * self.length()
    }

    /// Runs one frame: follows the pointer and the left button, and flips
    /// the switch when it is pressed. Returns whether the switch changed.
    pub fn update(&mut self, input: &Input) -> (changed: bool)
        ensures
            final(self).state == click_state(
                old(self).state,
                Switch::hovered_by(old(self).rect@, input),
                input.mouse.left_button,
            ),
            final(self).hovered == Switch::hovered_by(old(self).rect@, input),
            final(self).switched == (old(self).switched != (final(self).state == KeyState::Pressed)),
            changed == click_changed(
                old(self).state,
                old(self).hovered,
                Switch::hovered_by(old(self).rect@, input),
                input.mouse.left_button,
            ),
            final(self).rect@ == old(self).rect@,
            final(self).orientation == old(self).orientation,
            final(self).corner_radius == old(self).corner_radius,
    {
        let mouse_position = crate::geometry::Point::new(
            input.mouse.position.x,
            input.mouse.position.y,
        );
        let hovered = self.rect.contains_point(mouse_position);
        let changed = track_click(
            &mut self.state,
            &mut self.hovered,
            hovered,
            input.mouse.left_button,
        );
        if self.state.is_pressed() {
            self.switched = !self.switched;
        }
        changed
    }

    /// The colour the body of the switch is drawn in.
    pub fn shade(&self) -> (r: SwitchShade)
        ensures
            r == if self.switched {
                if self.hovered {
                    SwitchShade::HoveredOn
                } else {
                    SwitchShade::On
                }
            } else if self.hovered {
                SwitchShade::HoveredOff
            } else {
                SwitchShade::Off
            },
    {
        if self.switched {
            if self.hovered {
                SwitchShade::HoveredOn
            } else {
                SwitchShade::On
            }
        } else {
            if self.hovered {
                SwitchShade::HoveredOff
            } else {
                SwitchShade::Off
            }
        }
    }

    /// The square the thumb is drawn in, `margin` pixels inside the short
    /// side of the switch.
    pub fn thumb_rect(&self, margin: u32) -> (r: Rect)
        requires
            self.wf(),
            2 * margin <= thickness_of(self.rect@, self.orientation),
            self.orientation == Orientation::Horizontal ==> margin + self.rect@.x + travel(
                self.rect@,
                self.orientation,
            ) <= i32::MAX && margin + self.rect@.y <= i32::MAX,
            self.orientation == Orientation::Vertical ==> margin + self.rect@.x <= i32::MAX && margin
                + self.rect@.bottom() <= i32::MAX,
        ensures
            ({
                let rm = self.rect@;
                let thick = thickness_of(rm, self.orientation);
                let thumb = if self.switched {
                    travel(rm, self.orientation)
                } else {
                    0
                };
                let dot = thick - 2 * margin;
                &&& r@.w == clamp_size(dot)
                &&& r@.h == clamp_size(dot)
                &&& match self.orientation {
                    Orientation::Horizontal => {
                        &&& r@.x == clamp_position(margin + rm.x + thumb)
                        &&& r@.y == clamp_position(margin + rm.y)
                    },
                    Orientation::Vertical => {
                        &&& r@.x == clamp_position(margin + rm.x)
                        &&& r@.y == clamp_position(margin + rm.bottom() - thumb - thick)
                    },
                }
            }),
    {
        self.rect.check_wf();
        let thickness = self.thickness();
        let dot_width = thickness - 2 * margin;
        match self.orientation {
            Orientation::Horizontal => Rect::new(
                margin as i32 + self.rect.left() + self.thumb_position() as i32,
                margin as i32 + self.rect.top(),
                dot_width,
                dot_width,
            ),
            Orientation::Vertical => Rect::new(
                margin as i32 + self.rect.left(),
                margin as i32 + self.rect.bottom() - self.thumb_position() as i32 - thickness as i32,
                dot_width,
                dot_width,
            ),
        }
    }
}

/// Pressing a switch flips it exactly once: it flips in the frame the press
/// is seen, not in the frames the button is held afterwards.
pub proof fn lemma_switch_flips_on_press(state: KeyState, hovered: bool, left: KeyState)
    ensures
        (left == KeyState::Pressed && hovered) ==> click_state(state, hovered, left) == KeyState::Pressed,
        (left == KeyState::Pressed && hovered) ==> click_state(
            click_state(state, hovered, left),
            hovered,
            KeyState::Down,
        ) != KeyState::Pressed,
{
}

} // verus!
