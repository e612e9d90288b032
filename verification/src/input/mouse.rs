use vstd::prelude::*;
use crate::geometry::{clamp_position, Point};
use crate::input::key_state::KeyState;
use crate::input::Event;

verus! {

/// The mouse buttons SDL reports.
#[derive(PartialEq, Eq, Debug, Clone, Copy, Structural)]
pub enum MouseButton {
    Unknown,
    Left,
    Middle,
    Right,
    X1,
    X2,
}

impl MouseButton {
    /// The buttons whose state is tracked.
    pub open spec fn is_tracked(self) -> bool {
        self == MouseButton::Left || self == MouseButton::Middle || self == MouseButton::Right
    }
}

/// The longest gap, in milliseconds, between a release of the left button
/// and the next press for the press to count as a double click.
pub const TIME_TO_DOUBLE_CLICK: u32 = 100;

/// The state of the mouse during one frame.
pub struct Mouse {
    /// Where the pointer is.
    pub position: Point,
    /// How far the pointer moved during the frame.
    pub delta: Point,
    pub left_button: KeyState,
    pub right_button: KeyState,
    pub middle_button: KeyState,
    /// How far the wheel turned during the frame.
    pub wheel: i32,
    /// When the left button was last let go, in SDL milliseconds.
    pub left_released_at: Option<u32>,
    /// Whether the last press of the left button came soon enough after the
    /// release before it to count as a double click.
    pub left_double_press: bool,
}

/// Whether a press at `pressed_at` comes soon enough after a release at
/// `released_at` to make a double click.
pub open spec fn is_double_press(released_at: Option<u32>, pressed_at: u32) -> bool {
    match released_at {
        Some(t) => t <= pressed_at && pressed_at - t < TIME_TO_DOUBLE_CLICK,
        None => false,
    }
}

impl Mouse {
    /// The mouse after one more frame has started: the motion and the wheel
    /// of the last frame are forgotten and the buttons advance one frame.
    pub open spec fn next_frame(self) -> Mouse {
        Mouse {
            delta: Point { x: 0, y: 0 },
            wheel: 0,
            left_button: self.left_button.next_frame(),
            right_button: self.right_button.next_frame(),
            middle_button: self.middle_button.next_frame(),
            ..self
        }
    }

    /// The mouse after an event has been taken into account.
    pub open spec fn after_event(self, event: Event) -> Mouse {
        match event {
            Event::MouseMotion { x, y, xrel, yrel } => Mouse {
                position: Point { x: clamp_position(x as int) as i32, y: clamp_position(y as int) as i32 },
                delta: Point {
                    x: clamp_position(xrel as int) as i32,
                    y: clamp_position(yrel as int) as i32,
                },
                ..self
            },
            Event::MouseButtonDown { timestamp, mouse_btn } => match mouse_btn {
                MouseButton::Left => Mouse {
                    left_button: KeyState::Pressed,
                    left_double_press: is_double_press(self.left_released_at, timestamp),
                    ..self
                },
                MouseButton::Right => Mouse { right_button: KeyState::Pressed, ..self },
                MouseButton::Middle => Mouse { middle_button: KeyState::Pressed, ..self },
                _ => self,
            },
            Event::MouseButtonUp { timestamp, mouse_btn } => match mouse_btn {
                MouseButton::Left => Mouse {
                    left_button: KeyState::Released,
                    left_released_at: Some(timestamp),
                    ..self
                },
                MouseButton::Right => Mouse { right_button: KeyState::Released, ..self },
                MouseButton::Middle => Mouse { middle_button: KeyState::Released, ..self },
                _ => self,
            },
            Event::MouseWheel { y } => Mouse { wheel: y, ..self },
            _ => self,
        }
    }

    /// A still mouse at the origin with every button up.
    pub open spec fn at_rest() -> Mouse {
        Mouse {
            position: Point { x: 0, y: 0 },
            delta: Point { x: 0, y: 0 },
            left_button: KeyState::Up,
            right_button: KeyState::Up,
            middle_button: KeyState::Up,
            wheel: 0,
            left_released_at: None,
            left_double_press: false,
        }
    }

    /// A still mouse at the origin with every button up.
    pub fn new() -> (r: Self)
        ensures
            r == Mouse::at_rest(),
    {
        Mouse {
            position: Point::new(0, 0),
            delta: Point::new(0, 0),
            left_button: KeyState::Up,
            right_button: KeyState::Up,
            middle_button: KeyState::Up,
            wheel: 0,
            left_released_at: None,
            left_double_press: false,
        }
    }

    /// Starts a new frame.
    pub fn update(&mut self)
        ensures
            *final(self) == old(self).next_frame(),
    {
        self.delta = Point::new(0, 0);
        self.wheel = 0;
        self.left_button.update();
        self.right_button = match self.right_button {
            KeyState::Pressed => KeyState::Down,
            KeyState::Released => KeyState::Up,
            _ => self.right_button,
        };
        self.middle_button = match self.middle_button {
            KeyState::Pressed => KeyState::Down,
            KeyState::Released => KeyState::Up,
            _ => self.middle_button,
        };
    }

    /// Takes one event into account. Only the left, middle and right
    /// buttons may be reported pressed or released.
    pub fn get_event(&mut self, event: &Event)
        requires
            event.mouse_buttons_tracked(),
        ensures
            *final(self) == old(self).after_event(*event),
    {
        match event {
            Event::MouseMotion { x, y, xrel, yrel } => {
                self.position = Point::new(*x, *y);
                self.delta = Point::new(*xrel, *yrel);
            },
            Event::MouseButtonDown { timestamp, mouse_btn } => match mouse_btn {
                MouseButton::Left => {
                    self.left_button.press();
                    self.left_double_press =
                        match self.left_released_at {
                            Some(t) => t <= *timestamp && *timestamp - t < TIME_TO_DOUBLE_CLICK,
                            None => false,
                        };
                },
                MouseButton::Right => self.right_button = KeyState::Pressed,
                MouseButton::Middle => self.middle_button = KeyState::Pressed,
                _ => {},
            },
            Event::MouseButtonUp { timestamp, mouse_btn } => match mouse_btn {
                MouseButton::Left => {
                    self.left_button.release();
                    self.left_released_at = Some(*timestamp);
                },
                MouseButton::Right => self.right_button = KeyState::Released,
                MouseButton::Middle => self.middle_button = KeyState::Released,
                _ => {},
            },
            Event::MouseWheel { y } => {
                self.wheel = *y;
            },
            _ => {},
        }
    }

    /// Whether the left button was pressed this frame soon enough after its
    /// last release to make a double click.
    pub fn left_button_double_clicked(&self) -> (r: bool)
        ensures
            r == (self.left_button == KeyState::Pressed && self.left_double_press),
    {
        self.left_button.is_pressed() && self.left_double_press
    }
}

/// A button event changes the button it names and no other: a press of
/// button `b` makes `b` pressed, a release makes it released, and the other
/// two buttons, the pointer and the wheel are left as they were.
pub proof fn lemma_button_events_touch_only_their_button(m: Mouse, timestamp: u32)
    ensures
        m.after_event(Event::MouseButtonDown { timestamp, mouse_btn: MouseButton::Left }).left_button == KeyState::Pressed,
        m.after_event(Event::MouseButtonDown { timestamp, mouse_btn: MouseButton::Left }).right_button == m.right_button,
        m.after_event(Event::MouseButtonDown { timestamp, mouse_btn: MouseButton::Left }).middle_button == m.middle_button,
        m.after_event(Event::MouseButtonDown { timestamp, mouse_btn: MouseButton::Left }).position == m.position,
        m.after_event(Event::MouseButtonDown { timestamp, mouse_btn: MouseButton::Left }).delta == m.delta,
        m.after_event(Event::MouseButtonDown { timestamp, mouse_btn: MouseButton::Left }).wheel == m.wheel,
        m.after_event(Event::MouseButtonDown { timestamp, mouse_btn: MouseButton::Right }).right_button == KeyState::Pressed,
        m.after_event(Event::MouseButtonDown { timestamp, mouse_btn: MouseButton::Right }).left_button == m.left_button,
        m.after_event(Event::MouseButtonDown { timestamp, mouse_btn: MouseButton::Right }).middle_button == m.middle_button,
        m.after_event(Event::MouseButtonDown { timestamp, mouse_btn: MouseButton::Right }).position == m.position,
        m.after_event(Event::MouseButtonDown { timestamp, mouse_btn: MouseButton::Right }).delta == m.delta,
        m.after_event(Event::MouseButtonDown { timestamp, mouse_btn: MouseButton::Right }).wheel == m.wheel,
        m.after_event(Event::MouseButtonDown { timestamp, mouse_btn: MouseButton::Middle }).middle_button == KeyState::Pressed,
        m.after_event(Event::MouseButtonDown { timestamp, mouse_btn: MouseButton::Middle }).left_button == m.left_button,
        m.after_event(Event::MouseButtonDown { timestamp, mouse_btn: MouseButton::Middle }).right_button == m.right_button,
        m.after_event(Event::MouseButtonDown { timestamp, mouse_btn: MouseButton::Middle }).position == m.position,
        m.after_event(Event::MouseButtonDown { timestamp, mouse_btn: MouseButton::Middle }).delta == m.delta,
        m.after_event(Event::MouseButtonDown { timestamp, mouse_btn: MouseButton::Middle }).wheel == m.wheel,
        m.after_event(Event::MouseButtonUp { timestamp, mouse_btn: MouseButton::Left }).left_button == KeyState::Released,
        m.after_event(Event::MouseButtonUp { timestamp, mouse_btn: MouseButton::Left }).right_button == m.right_button,
        m.after_event(Event::MouseButtonUp { timestamp, mouse_btn: MouseButton::Left }).middle_button == m.middle_button,
        m.after_event(Event::MouseButtonUp { timestamp, mouse_btn: MouseButton::Left }).position == m.position,
        m.after_event(Event::MouseButtonUp { timestamp, mouse_btn: MouseButton::Left }).delta == m.delta,
        m.after_event(Event::MouseButtonUp { timestamp, mouse_btn: MouseButton::Left }).wheel == m.wheel,
        m.after_event(Event::MouseButtonUp { timestamp, mouse_btn: MouseButton::Right }).right_button == KeyState::Released,
        m.after_event(Event::MouseButtonUp { timestamp, mouse_btn: MouseButton::Right }).left_button == m.left_button,
        m.after_event(Event::MouseButtonUp { timestamp, mouse_btn: MouseButton::Right }).middle_button == m.middle_button,
        m.after_event(Event::MouseButtonUp { timestamp, mouse_btn: MouseButton::Right }).position == m.position,
        m.after_event(Event::MouseButtonUp { timestamp, mouse_btn: MouseButton::Right }).delta == m.delta,
        m.after_event(Event::MouseButtonUp { timestamp, mouse_btn: MouseButton::Right }).wheel == m.wheel,
        m.after_event(Event::MouseButtonUp { timestamp, mouse_btn: MouseButton::Middle }).middle_button == KeyState::Released,
        m.after_event(Event::MouseButtonUp { timestamp, mouse_btn: MouseButton::Middle }).left_button == m.left_button,
        m.after_event(Event::MouseButtonUp { timestamp, mouse_btn: MouseButton::Middle }).right_button == m.right_button,
        m.after_event(Event::MouseButtonUp { timestamp, mouse_btn: MouseButton::Middle }).position == m.position,
        m.after_event(Event::MouseButtonUp { timestamp, mouse_btn: MouseButton::Middle }).delta == m.delta,
        m.after_event(Event::MouseButtonUp { timestamp, mouse_btn: MouseButton::Middle }).wheel == m.wheel,
{
}

/// A new frame advances each button by its own state alone, forgets the
/// motion and the wheel, and keeps the pointer where it is.
pub proof fn lemma_frame_advances_each_button(m: Mouse)
    ensures
        m.next_frame().left_button == m.left_button.next_frame(),
        m.next_frame().right_button == m.right_button.next_frame(),
        m.next_frame().middle_button == m.middle_button.next_frame(),
        m.next_frame().position == m.position,
        m.next_frame().delta == (Point { x: 0, y: 0 }),
        m.next_frame().wheel == 0,
        m.next_frame().left_released_at == m.left_released_at,
{
}

} // verus!
