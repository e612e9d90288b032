use pg_sdl::geometry::{Point, Rect};
use pg_sdl::input::key_state::{KeyState, Keycode};
use pg_sdl::input::mouse::MouseButton;
use pg_sdl::input::{Event, Input};
use pg_sdl::text::TextStyle;
use pg_sdl::widgets::button::Button;
use pg_sdl::widgets::slider::Slider;
use pg_sdl::widgets::switch::{Switch, SwitchShade};
use pg_sdl::widgets::text_input::{focus_corner_radius, TextInput};
use pg_sdl::widgets::{shade, Orientation, Shade};

fn input_at(x: i32, y: i32) -> Input {
    let mut input = Input::new();
    input.handle_event(&Event::MouseMotion { x, y, xrel: 0, yrel: 0 });
    input
}

fn click(input: &mut Input, down: bool) {
    input.begin_frame();
    let e = if down {
        Event::MouseButtonDown { timestamp: 0, mouse_btn: MouseButton::Left }
    } else {
        Event::MouseButtonUp { timestamp: 0, mouse_btn: MouseButton::Left }
    };
    input.handle_event(&e);
}

#[test]
fn shades() {
    assert_eq!(shade(KeyState::Pressed, false), Shade::Pushed);
    assert_eq!(shade(KeyState::Down, true), Shade::Pushed);
    assert_eq!(shade(KeyState::Released, true), Shade::Hovered);
    assert_eq!(shade(KeyState::Up, false), Shade::Normal);
}

#[test]
fn orientation_follows_longer_side() {
    assert_eq!(Orientation::of_rect(&Rect::new(0, 0, 10, 5)), Orientation::Horizontal);
    assert_eq!(Orientation::of_rect(&Rect::new(0, 0, 5, 10)), Orientation::Vertical);
    assert_eq!(Orientation::of_rect(&Rect::new(0, 0, 5, 5)), Orientation::Vertical);
}

#[test]
fn button_click_cycle() {
    let mut b = Button::new(Rect::new(0, 0, 100, 50), Some(9), TextStyle::new(16, None), "Auto !".to_string());
    let mut input = input_at(10, 10);
    assert!(b.update(&input));
    assert!(b.hovered);
    assert_eq!(b.shade(), Shade::Hovered);
    assert!(!b.update(&input));
    click(&mut input, true);
    assert!(b.update(&input));
    assert_eq!(b.state, KeyState::Pressed);
    assert_eq!(b.shade(), Shade::Pushed);
    input.begin_frame();
    assert!(!b.update(&input));
    assert_eq!(b.state, KeyState::Down);
    input.handle_event(&Event::MouseMotion { x: 500, y: 500, xrel: 0, yrel: 0 });
    click(&mut input, false);
    assert!(b.update(&input));
    assert_eq!(b.state, KeyState::Released);
    assert!(!b.hovered);
    b.set_text("x".to_string());
    assert_eq!(b.text, "x");
}

#[test]
fn button_not_pressed_from_outside() {
    let mut b = Button::new(Rect::new(0, 0, 100, 50), None, TextStyle::default(), String::new());
    let mut input = input_at(200, 10);
    click(&mut input, true);
    b.update(&input);
    assert_eq!(b.state, KeyState::Up);
    assert_eq!(b.shade(), Shade::Normal);
}

#[test]
fn switch_toggles_once_per_press() {
    let mut s = Switch::new(Rect::new(0, 0, 60, 20), Some(10));
    assert_eq!(s.orientation, Orientation::Horizontal);
    assert_eq!(s.length(), 40);
    assert_eq!(s.thickness(), 20);
    assert_eq!(s.thumb_position(), 0);
    let mut input = input_at(5, 5);
    click(&mut input, true);
    assert!(s.update(&input));
    assert!(s.switched);
    assert_eq!(s.thumb_position(), 40);
    assert_eq!(s.shade(), SwitchShade::HoveredOn);
    input.begin_frame();
    s.update(&input);
    assert!(s.switched);
    click(&mut input, false);
    s.update(&input);
    click(&mut input, true);
    s.update(&input);
    assert!(!s.switched);
    s.set_switched(true);
    assert!(s.switched);
}

#[test]
fn switch_thumb_rect() {
    let mut s = Switch::new(Rect::new(10, 100, 60, 20), None);
    let r = s.thumb_rect(3);
    assert_eq!((r.x(), r.y(), r.width(), r.height()), (13, 103, 14, 14));
    s.set_switched(true);
    let r = s.thumb_rect(3);
    assert_eq!((r.x(), r.y()), (53, 103));
    let v = Switch::new(Rect::new(10, 100, 20, 60), None);
    let r = v.thumb_rect(3);
    assert_eq!((r.x(), r.y(), r.width()), (13, 143, 14));
    assert_eq!(v.shade(), SwitchShade::Off);
}

#[test]
fn slider_grab_is_clamped() {
    let mut s = Slider::new(Rect::new(500, 150, 150, 18), Some(4));
    assert_eq!(s.length(), 132);
    assert_eq!(s.thickness(), 18);
    let mut input = input_at(560, 155);
    click(&mut input, true);
    let (changed, grab) = s.update(&input);
    assert!(changed);
    assert_eq!(grab, Some(560 - 500 - 9));
    assert!(s.bars_highlighted());
    input.begin_frame();
    input.handle_event(&Event::MouseMotion { x: 10, y: 0, xrel: 0, yrel: 0 });
    let (_, grab) = s.update(&input);
    assert_eq!(grab, Some(0));
    input.handle_event(&Event::MouseMotion { x: 2000, y: 0, xrel: 0, yrel: 0 });
    let (_, grab) = s.update(&input);
    assert_eq!(grab, Some(132));
    click(&mut input, false);
    let (_, grab) = s.update(&input);
    assert_eq!(grab, None);
}

#[test]
fn vertical_slider_grab_counts_from_bottom() {
    let mut s = Slider::new(Rect::new(700, 80, 40, 150), Some(20));
    assert_eq!(s.orientation, Orientation::Vertical);
    let mut input = input_at(710, 200);
    click(&mut input, true);
    let (_, grab) = s.update(&input);
    assert_eq!(grab, Some(230 - 200 - 20));
}

#[test]
fn slider_rects() {
    let s = Slider::new(Rect::new(500, 150, 150, 18), None);
    let pad = s.thumb_rect(66);
    assert_eq!((pad.x(), pad.y(), pad.width(), pad.height()), (566, 150, 18, 18));
    let (back, filled) = s.bar_rects(66, 2, 12);
    assert_eq!((back.x(), back.y(), back.width(), back.height()), (575, 152, 150 - 66 - 9 - 2, 12));
    assert_eq!((filled.x(), filled.y(), filled.width(), filled.height()), (502, 152, 66 + 9 - 2, 12));
    let v = Slider::new(Rect::new(700, 80, 40, 150), None);
    let pad = v.thumb_rect(10);
    assert_eq!((pad.x(), pad.y()), (700, 230 - 10 - 40));
    let (back, filled) = v.bar_rects(10, 6, 28);
    assert_eq!((back.x(), back.y(), back.width(), back.height()), (706, 86, 28, 150 - 10 - 20 - 6));
    assert_eq!((filled.x(), filled.y(), filled.height()), (706, 230 - 30, 30 - 6));
}

#[test]
fn text_input_focus_and_typing() {
    let mut t = TextInput::new(Rect::new(0, 0, 200, 30), Some("ab".to_string()));
    let mut input = input_at(300, 300);
    input.handle_event(&Event::TextInput { text: vec!['z'] });
    t.update(&input);
    assert_eq!(t.content, "ab");
    input.handle_event(&Event::MouseMotion { x: 10, y: 10, xrel: 0, yrel: 0 });
    click(&mut input, true);
    assert!(t.update(&input));
    assert!(t.is_focused);
    input.begin_frame();
    input.handle_event(&Event::TextInput { text: vec!['c'] });
    assert!(t.update(&input));
    assert_eq!(t.content, "abc");
    input.begin_frame();
    input.handle_event(&Event::KeyDown { keycode: Some(Keycode::Backspace) });
    assert!(t.update(&input));
    assert_eq!(t.content, "ab");
    input.begin_frame();
    input.handle_event(&Event::TextInput { text: vec!['d'] });
    assert!(t.update(&input));
    assert_eq!(t.content, "abd");
    input.begin_frame();
    input.handle_event(&Event::TextInput { text: vec!['e'] });
    input.handle_event(&Event::KeyUp { keycode: Some(Keycode::Backspace) });
    input.handle_event(&Event::KeyDown { keycode: Some(Keycode::Backspace) });
    t.update(&input);
    assert_eq!(t.content, "abd");
    input.handle_event(&Event::MouseMotion { x: 300, y: 300, xrel: 0, yrel: 0 });
    click(&mut input, true);
    t.update(&input);
    assert!(!t.is_focused);
    assert_eq!(t.state, KeyState::Released);
}

#[test]
fn text_input_backspace_on_empty() {
    let mut t = TextInput::new(Rect::new(0, 0, 200, 30), None);
    let mut input = input_at(10, 10);
    click(&mut input, true);
    t.update(&input);
    input.begin_frame();
    input.handle_event(&Event::KeyDown { keycode: Some(Keycode::Backspace) });
    assert!(t.update(&input));
    assert_eq!(t.content, "");
}

#[test]
fn text_input_geometry() {
    let t = TextInput::new(Rect::new(10, 20, 200, 31), None);
    let r = t.focus_rect();
    assert_eq!((r.x(), r.y(), r.width(), r.height()), (11, 21, 198, 29));
    assert_eq!(t.text_position(), Point::new(15, 35));
    assert_eq!(focus_corner_radius(Some(4)), Some(3));
    assert_eq!(focus_corner_radius(None), None);
    assert_eq!(t.shade(), Shade::Normal);
}

#[test]
fn text_styles_use_the_bundled_font() {
    let s = TextStyle::new(24, Some("DejaVuSans.ttf"));
    assert_eq!(s.font_name, "fonts/Vera.ttf");
    assert_eq!(s.font_size, 24);
    assert_eq!(s.font_style.bits, 0);
    let d = TextStyle::default();
    assert_eq!(d.font_size, 16);
    assert_eq!(d.font_name, "fonts/Vera.ttf");
    assert_eq!(d.color, pg_sdl::color::Colors::black());
}
