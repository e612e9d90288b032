use vstd::prelude::*;
use crate::geometry::{clamp_position, clamp_size, Rect, RectModel};
use crate::input::key_state::KeyState;
use crate::input::Input;
use crate::widgets::{
    click_changed, click_state, shade, shade_of, thickness_of, track_click, travel, Orientation,
    Shade,
};

verus! {

/// The part of a slider that deals in pixels: where it sits, how it is
/// grabbed and where its thumb and bars are drawn. The value the thumb
/// stands for is kept by the caller.
pub struct Slider {
    pub rect: Rect,
    pub orientation: Orientation,
    pub corner_radius: Option<u32>,
    pub hovered: bool,
    pub state: KeyState,
}

/// Where along the bar the pointer at `(px, py)` puts the thumb: the
/// distance from the start of the bar (the left end, or the bottom end of a
/// vertical bar) to the pointer, less half the thickness, kept within the
/// travel of the thumb.
pub open spec fn grab_offset(rect: RectModel, orientation: Orientation, px: int, py: int) -> int {
    let raw = match orientation {
        Orientation::Horizontal => px - rect.x,
        Orientation::Vertical => rect.bottom() - py,
    } - thickness_of(rect, orientation) / 2;
    if raw < 0 {
        0
    } else if raw > travel(rect, orientation) {
        travel(rect, orientation)
    } else {
        raw
    }
}

impl Slider {
    /// The slider runs along its longer side.
    pub open spec fn wf(&self) -> bool {
        self.orientation == Orientation::of_model(self.rect@)
    }

    /// Whether the pointer is over a slider occupying `rect`.
    pub open spec fn hovered_by(rect: RectModel, input: &Input) -> bool {
        rect.contains(input.mouse.position.x as int, input.mouse.position.y as int)
    }

    /// A slider that is neither hovered nor grabbed.
    pub fn new(rect: Rect, corner_radius: Option<u32>) -> (r: Self)
        ensures
            r.wf(),
            r.rect@ == rect@,
            r.corner_radius == corner_radius,
            !r.hovered,
            r.state == KeyState::Up,
    {
        let orientation = Orientation::of_rect(&rect);
        Slider { rect, orientation, corner_radius, hovered: false, state: KeyState::new() }
    }

    /// How far the thumb can travel: the long side minus the short side.
    pub fn length(&self) -> (r: u32)
        requires
            self.wf(),
        ensures
            r == travel(self.rect@, self.orientation),
    {
        match self.orientation {
            Orientation::Horizontal => self.rect.width() - self.rect.height(),
            Orientation::Vertical => self.rect.height() - self.rect.width(),
        }
    }

    /// The short side of the slider.
    pub fn thickness(&self) -> (r: u32)
        ensures
            r == thickness_of(self.rect@, self.orientation),
    {
        match self.orientation {
            Orientation::Horizontal => self.rect.height(),
            Orientation::Vertical => self.rect.width(),
        }
    }

    /// Runs one frame: follows the pointer and the left button. Returns
    /// whether the look of the slider changed and, while the slider is
    /// pressed or held, where the pointer puts the thumb.
    pub fn update(&mut self, input: &Input) -> (r: (bool, Option<u32>))
        requires
            old(self).wf(),
        ensures
            final(self).wf(),
            final(self).state == click_state(
                old(self).state,
                Slider::hovered_by(old(self).rect@, input),
                input.mouse.left_button,
            ),
            final(self).hovered == Slider::hovered_by(old(self).rect@, input),
            r.0 == click_changed(
                old(self).state,
                old(self).hovered,
                Slider::hovered_by(old(self).rect@, input),
                input.mouse.left_button,
            ),
            r.1 == if final(self).state == KeyState::Pressed || final(self).state == KeyState::Down {
                Some(
                    grab_offset(
                        old(self).rect@,
                        old(self).orientation,
                        input.mouse.position.x as int,
                        input.mouse.position.y as int,
                    ) as u32,
                )
            } else {
                None
            },
            final(self).rect@ == old(self).rect@,
            final(self).orientation == old(self).orientation,
            final(self).corner_radius == old(self).corner_radius,
    {
        let hovered = self.rect.contains_point(input.mouse.position);
        let changed = track_click(
            &mut self.state,
            &mut self.hovered,
            hovered,
            input.mouse.left_button,
        );
        if self.state.is_pressed() || self.state.is_down() {
            self.rect.check_wf();
            let point = input.mouse.position;
            let along: i64 = match self.orientation {
                Orientation::Horizontal => point.x as i64 - self.rect.left() as i64,
                Orientation::Vertical => self.rect.bottom() as i64 - point.y as i64,
            };
            let raw = along - (self.thickness() / 2) as i64;
            let length = self.length();
            let offset: u32 = if raw < 0 {
                0
            } else if raw > length as i64 {
                length
            } else {
                raw as u32
            };
            (changed, Some(offset))
        } else {
            (changed, None)
        }
    }

    /// Whether the bars are drawn highlighted: while the slider is hovered,
    /// pressed or held.
    pub fn bars_highlighted(&self) -> (r: bool)
        ensures
            r == (self.hovered || self.state == KeyState::Pressed || self.state == KeyState::Down),
    {
        self.hovered || self.state.is_pressed() || self.state.is_down()
    }

    /// The shade the thumb is drawn in.
    pub fn thumb_shade(&self) -> (r: Shade)
        ensures
            r == shade_of(self.state, self.hovered),
    {
        shade(self.state, self.hovered)
    }

    /// The square the thumb is drawn in when it is `thumb` pixels along the
    /// bar.
    pub fn thumb_rect(&self, thumb: u32) -> (r: Rect)
        requires
            self.wf(),
            thumb <= travel(self.rect@, self.orientation),
        ensures
            ({
                let rm = self.rect@;
                let thick = thickness_of(rm, self.orientation);
                &&& r@.w == clamp_size(thick)
                &&& r@.h == clamp_size(thick)
                &&& match self.orientation {
                    Orientation::Horizontal => {
                        &&& r@.x == clamp_position(rm.x + thumb)
                        &&& r@.y == clamp_position(rm.y)
                    },
                    Orientation::Vertical => {
                        &&& r@.x == clamp_position(rm.x)
                        &&& r@.y == clamp_position(rm.bottom() - thumb - thick)
                    },
                }
            }),
    {
        self.rect.check_wf();
        let thickness = self.thickness();
        match self.orientation {
            Orientation::Horizontal => Rect::new(
                self.rect.left() + thumb as i32,
                self.rect.top(),
                thickness,
                thickness,
            ),
            Orientation::Vertical => Rect::new(
                self.rect.left(),
                self.rect.bottom() - thumb as i32 - thickness as i32,
                thickness,
                thickness,
            ),
        }
    }

    /// The two bars either side of the thumb when it is `thumb` pixels
    /// along: the back bar beyond the thumb and the filled bar before it,
    /// both `margin` pixels inside the slider and `bar` pixels thick.
    pub fn bar_rects(&self, thumb: u32, margin: u32, bar: u32) -> (r: (Rect, Rect))
        requires
            self.wf(),
            thumb <= travel(self.rect@, self.orientation),
            margin <= thumb + thickness_of(self.rect@, self.orientation) / 2,
            margin + thumb + thickness_of(self.rect@, self.orientation) / 2 <= match self.orientation {
                Orientation::Horizontal => self.rect@.w,
                Orientation::Vertical => self.rect@.h,
            },
        ensures
            ({
                let rm = self.rect@;
                let half = thickness_of(rm, self.orientation) / 2;
                let (back, filled) = r;
                match self.orientation {
                    Orientation::Horizontal => {
                        &&& back@.x == clamp_position(rm.x + thumb + half)
                        &&& back@.y == clamp_position(rm.y + margin)
                        &&& back@.w == clamp_size(rm.w - thumb - half - margin)
                        &&& back@.h == clamp_size(bar as int)
                        &&& filled@.x == clamp_position(rm.x + margin)
                        &&& filled@.y == clamp_position(rm.y + margin)
                        &&& filled@.w == clamp_size(thumb + half - margin)
                        &&& filled@.h == clamp_size(bar as int)
                    },
                    Orientation::Vertical => {
                        &&& back@.x == clamp_position(rm.x + margin)
                        &&& back@.y == clamp_position(rm.y + margin)
                        &&& back@.w == clamp_size(bar as int)
                        &&& back@.h == clamp_size(rm.h - thumb - half - margin)
                        &&& filled@.x == clamp_position(rm.x + margin)
                        &&& filled@.y == clamp_position(rm.bottom() - (thumb + half))
                        &&& filled@.w == clamp_size(bar as int)
                        &&& filled@.h == clamp_size(thumb + half - margin)
                    },
                }
            }),
    {
        self.rect.check_wf();
        let half = self.thickness() / 2;
        match self.orientation {
            Orientation::Horizontal => (
                Rect::new(
                    self.rect.left() + (thumb + half) as i32,
                    self.rect.top() + margin as i32,
                    self.rect.width() - thumb - half - margin,
                    bar,
                ),
                Rect::new(
                    self.rect.left() + margin as i32,
                    self.rect.top() + margin as i32,
                    thumb + half - margin,
                    bar,
                ),
            ),
            Orientation::Vertical => (
                Rect::new(
                    self.rect.left() + margin as i32,
                    self.rect.top() + margin as i32,
                    bar,
                    self.rect.height() - thumb - half - margin,
                ),
                Rect::new(
                    self.rect.left() + margin as i32,
                    self.rect.bottom() - (thumb + half) as i32,
                    bar,
                    thumb + half - margin,
                ),
            ),
        }
    }
}

/// Wherever the pointer is, a grabbed thumb stays on the bar.
pub proof fn lemma_grab_within_travel(rect: RectModel, orientation: Orientation, px: int, py: int)
    requires
        orientation == Orientation::of_model(rect),
    ensures
        0 <= grab_offset(rect, orientation, px, py) <= travel(rect, orientation),
{
}

} // verus!
