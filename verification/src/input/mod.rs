pub mod key_state;
pub mod mouse;

use vstd::prelude::*;
use crate::input::key_state::{KeyState, Keycode, KeysState};
use crate::input::mouse::{Mouse, MouseButton};

verus! {

/// An input event, as SDL reports it, reduced to what this library reads.
#[derive(Debug)]
pub enum Event {
    /// The window was asked to close.
    Quit,
    /// Text was typed; SDL reports one character at a time.
    TextInput { text: Vec<char> },
    KeyDown { keycode: Option<Keycode> },
    KeyUp { keycode: Option<Keycode> },
    /// The pointer moved to `(x, y)`, by `(xrel, yrel)`.
    MouseMotion { x: i32, y: i32, xrel: i32, yrel: i32 },
    MouseButtonDown { timestamp: u32, mouse_btn: MouseButton },
    MouseButtonUp { timestamp: u32, mouse_btn: MouseButton },
    MouseWheel { y: i32 },
    /// Any event this library does not react to.
    Other,
}

impl Event {
    /// Button events name a tracked mouse button.
    pub open spec fn mouse_buttons_tracked(self) -> bool {
        match self {
            Event::MouseButtonDown { mouse_btn, .. } => mouse_btn.is_tracked(),
            Event::MouseButtonUp { mouse_btn, .. } => mouse_btn.is_tracked(),
            _ => true,
        }
    }

    /// The events `Input::handle_event` accepts: typed text is one
    /// character, key events name a tracked key, button events a tracked
    /// button.
    pub open spec fn is_supported(self) -> bool {
        &&& self.mouse_buttons_tracked()
        &&& match self {
            Event::TextInput { text } => text@.len() == 1,
            Event::KeyDown { keycode: Some(k) } => k.key() is Some,
            Event::KeyUp { keycode: Some(k) } => k.key() is Some,
            _ => true,
        }
    }

    /// Whether `Input::handle_event` accepts the event.
    pub fn supported(&self) -> (r: bool)
        ensures
            r == self.is_supported(),
    {
        let buttons = match self {
            Event::MouseButtonDown { mouse_btn, .. } | Event::MouseButtonUp { mouse_btn, .. } => {
                match mouse_btn {
                    MouseButton::Left | MouseButton::Middle | MouseButton::Right => true,
                    _ => false,
                }
            },
            _ => true,
        };
        buttons && match self {
            Event::TextInput { text } => text.len() == 1,
            Event::KeyDown { keycode: Some(k) } => k.is_tracked(),
            Event::KeyUp { keycode: Some(k) } => k.is_tracked(),
            _ => true,
        }
    }
}

/// Everything the application knows about the user's input in the current
/// frame.
pub struct Input {
    pub window_closed: bool,
    pub keys_state: KeysState,
    pub mouse: Mouse,
    /// The character typed during the frame, if any.
    pub last_char: Option<char>,
}

impl Input {
    /// No input yet: the window is open, every key and button is up.
    pub fn new() -> (r: Self)
        ensures
            !r.window_closed,
            forall|k| #[trigger] r.keys_state.state(k) == KeyState::Up,
            r.mouse == Mouse::at_rest(),
            r.last_char is None,
    {
        Input {
            window_closed: false,
            keys_state: KeysState::new(),
            mouse: Mouse::new(),
            last_char: None,
        }
    }

    /// Starts a new frame: the typed character is forgotten and every key
    /// and button advances one frame.
    pub fn begin_frame(&mut self)
        ensures
            final(self).window_closed == old(self).window_closed,
            forall|k| #[trigger] final(self).keys_state.state(k) == old(self).keys_state.state(k).next_frame(),
            final(self).mouse == old(self).mouse.next_frame(),
            final(self).last_char is None,
    {
        self.last_char = None;
        self.keys_state.update_all();
        self.mouse.update();
    }

    /// Takes one event of the frame into account.
    pub fn handle_event(&mut self, event: &Event)
        requires
            event.is_supported(),
        ensures
            final(self).window_closed == (old(self).window_closed || *event is Quit),
            final(self).mouse == old(self).mouse.after_event(*event),
            final(self).last_char == match *event {
                Event::TextInput { text } => Some(text@[0]),
                _ => old(self).last_char,
            },
            final(self).keys_state == match *event {
                Event::KeyDown { keycode: Some(k) } => old(self).keys_state.with_key(
                    k.key().unwrap(),
                    KeyState::Pressed,
                ),
                Event::KeyUp { keycode: Some(k) } => old(self).keys_state.with_key(
                    k.key().unwrap(),
                    KeyState::Released,
                ),
                _ => old(self).keys_state,
            },
    {
        self.mouse.get_event(event);
        match event {
            Event::TextInput { text } => {
                self.last_char = Some(text[0]);
            },
            Event::Quit => self.window_closed = true,
            Event::KeyDown { keycode } => {
                if let Some(keycode) = keycode {
                    self.keys_state.press_key(*keycode);
                }
            },
            Event::KeyUp { keycode } => {
                if let Some(keycode) = keycode {
                    self.keys_state.release_key(*keycode);
                }
            },
            _ => {},
        }
    }
}

} // verus!
