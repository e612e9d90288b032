use vstd::prelude::*;
use crate::geometry::{clamp_position, clamp_size, Point, Rect, RectModel};
use crate::input::key_state::KeyState;
use crate::input::Input;
use crate::widgets::{shade, shade_of, Shade};

verus! {

/// `String::push`: appends the character at the end of the string.
#[verifier::external_body]
fn string_push(s: &mut String, c: char)
    ensures
        final(s)@ == old(s)@.push(c),
{
    s.push(c);
}

/// `String::pop`: removes the last character of the string and returns it,
/// or returns `None` and leaves the string alone when it is empty.
#[verifier::external_body]
fn string_pop(s: &mut String) -> (r: Option<char>)
    ensures
        old(s)@.len() == 0 ==> r is None && final(s)@ == old(s)@,
        old(s)@.len() > 0 ==> r == Some(old(s)@.last()) && final(s)@ == old(s)@.drop_last(),
{
    s.pop()
}

/// A text input is a widget that takes focus when clicked and then
/// collects the characters typed, with backspace removing the last one.
pub struct TextInput {
    pub rect: Rect,
    pub content: String,
    pub hovered: bool,
    pub is_focused: bool,
    pub state: KeyState,
}

/// The text after a frame in which `typed` was typed and backspace was
/// pressed or not: the character is appended, then backspace removes the
/// last character.
pub open spec fn edited(text: Seq<char>, typed: Option<char>, backspace: bool) -> Seq<char> {
    let with_char = match typed {
        Some(c) => text.push(c),
        None => text,
    };
    if backspace && with_char.len() > 0 {
        with_char.drop_last()
    } else {
        with_char
    }
}

impl TextInput {
    /// Whether the pointer is over a text input occupying `rect`.
    pub open spec fn hovered_by(rect: RectModel, input: &Input) -> bool {
        rect.contains(input.mouse.position.x as int, input.mouse.position.y as int)
    }

    /// A text input holding `default_text` (or nothing), without focus.
    pub fn new(rect: Rect, default_text: Option<String>) -> (r: Self)
        ensures
            r.rect@ == rect@,
            r.content@ == match default_text {
                Some(t) => t@,
                None => Seq::<char>::empty(),
            },
            !r.hovered,
            !r.is_focused,
            r.state == KeyState::Up,
    {
        let content = match default_text {
            Some(t) => t,
            None => String::new(),
        };
        TextInput { rect, content, hovered: false, state: KeyState::new(), is_focused: false }
    }

    /// Runs one frame. A press of the left button over the input gives it
    /// the focus, a press elsewhere takes the focus away; letting go of the
    /// button releases the input. While focused, the typed character is
    /// appended and backspace removes the last character. Returns whether
    /// the input needs redrawing.
    pub fn update(&mut self, input: &Input) -> (changed: bool)
        ensures
            ({
                let hovered = TextInput::hovered_by(old(self).rect@, input);
                let left = input.mouse.left_button;
                let s = old(self).state.next_frame();
                let pressed_here = left == KeyState::Pressed && hovered;
                let pressed_away = left == KeyState::Pressed && !hovered;
                let let_go = !pressed_here && !pressed_away && s == KeyState::Down && left
                    == KeyState::Released;
                let focused = if pressed_here {
                    true
                } else if pressed_away {
                    false
                } else {
                    old(self).is_focused
                };
                let backspace = input.keys_state.backspace == KeyState::Pressed;
                &&& final(self).hovered == hovered
                &&& final(self).state == if pressed_here {
                    KeyState::Pressed
                } else if pressed_away || let_go {
                    KeyState::Released
                } else {
                    s
                }
                &&& final(self).is_focused == focused
                &&& final(self).content@ == if focused {
                    edited(old(self).content@, input.last_char, backspace)
                } else {
                    old(self).content@
                }
                &&& changed == (hovered != old(self).hovered || pressed_here || pressed_away || let_go
                    || (focused && (input.last_char is Some || backspace)))
                &&& final(self).rect@ == old(self).rect@
            }),
    {
        let mut changed = false;
        self.state.update();

        let hovered = self.rect.contains_point(input.mouse.position);
        if hovered != self.hovered {
            self.hovered = hovered;
            changed = true;
        }

        if input.mouse.left_button.is_pressed() && self.hovered {
            self.state.press();
            self.is_focused = true;
            changed = true;
        } else if input.mouse.left_button.is_pressed() && !self.hovered {
            self.state.release();
            self.is_focused = false;
            changed = true;
        } else if self.state.is_down() && input.mouse.left_button.is_released() {
            self.state.release();
            changed = true;
        }

        if !self.is_focused {
            return changed;
        }

        if let Some(c) = input.last_char {
            changed = true;
            string_push(&mut self.content, c);
        }
        if input.keys_state.backspace.is_pressed() {
            changed = true;
            string_pop(&mut self.content);
        }

        changed
    }

    /// The shade the background is drawn in.
    pub fn shade(&self) -> (r: Shade)
        ensures
            r == shade_of(self.state, self.hovered),
    {
        shade(self.state, self.hovered)
    }

    /// The outline drawn inside the border while the input has the focus:
    /// one pixel in from every side. The input must be at least two
    /// pixels wide and high.
    pub fn focus_rect(&self) -> (r: Rect)
        requires
            self.rect@.w >= 2,
            self.rect@.h >= 2,
        ensures
            r@.x == clamp_position(self.rect@.x + 1),
            r@.y == clamp_position(self.rect@.y + 1),
            r@.w == clamp_size(self.rect@.w - 2),
            r@.h == clamp_size(self.rect@.h - 2),
    {
        self.rect.check_wf();
        Rect::new(
            self.rect.left() + 1,
            self.rect.top() + 1,
            self.rect.width() - 2,
            self.rect.height() - 2,
        )
    }

    /// Where the text starts: five pixels in from the left edge, halfway
    /// down.
    pub fn text_position(&self) -> (r: Point)
        ensures
            r.x == clamp_position(self.rect@.x + 5),
            r.y == clamp_position(self.rect@.h / 2 + self.rect@.y),
    {
        self.rect.check_wf();
        Point::new(self.rect.left() + 5, (self.rect.height() / 2) as i32 + self.rect.top())
    }
}

/// The corner radius of the focus outline: one less than the border's.
pub fn focus_corner_radius(corner_radius: Option<u16>) -> (r: Option<u16>)
    requires
        corner_radius != Some(0u16),
    ensures
        r == match corner_radius {
            Some(c) => Some((c - 1) as u16),
            None => None,
        },
{
    match corner_radius {
        Some(c) => Some(c - 1),
        None => None,
    }
}

/// Typing a character and then deleting it leaves the text as it was.
pub proof fn lemma_type_then_erase(text: Seq<char>, c: char)
    ensures
        edited(text, Some(c), true) == text,
        edited(text, Some(c), false) == text.push(c),
{
    assert(text.push(c).drop_last() =~= text);
}

} // verus!
