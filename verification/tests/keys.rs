use pg_sdl::input::key_state::{Key, KeyState, Keycode, KeysState};
use pg_sdl::input::mouse::{Mouse, MouseButton};
use pg_sdl::input::{Event, Input};

#[test]
fn key_state_cycle() {
    let mut k = KeyState::new();
    assert!(k.is_up());
    k.press();
    assert!(k.is_pressed());
    k.update();
    assert!(k.is_down());
    k.update();
    assert!(k.is_down());
    k.release();
    assert!(k.is_released());
    k.update();
    assert!(k.is_up());
    k.update();
    assert!(k.is_up());
}

#[test]
fn key_state_queries_are_exclusive() {
    for s in [KeyState::Up, KeyState::Pressed, KeyState::Down, KeyState::Released] {
        let n = [s.is_up(), s.is_pressed(), s.is_down(), s.is_released()]
            .iter()
            .filter(|b| **b)
            .count();
        assert_eq!(n, 1);
    }
}

#[test]
fn update_settles_and_is_idempotent() {
    for s in [KeyState::Up, KeyState::Pressed, KeyState::Down, KeyState::Released] {
        let mut once = s;
        once.update();
        assert!(once == KeyState::Up || once == KeyState::Down);
        let mut twice = once;
        twice.update();
        assert_eq!(once, twice);
    }
}

#[test]
fn keys_start_up() {
    let keys = KeysState::new();
    assert_eq!(keys.a, KeyState::Up);
    assert_eq!(keys.backspace, KeyState::Up);
    assert_eq!(keys._9, KeyState::Up);
    assert_eq!(keys.mouse_middle, KeyState::Up);
}

#[test]
fn press_key_changes_only_its_key() {
    let mut keys = KeysState::new();
    keys.press_key(Keycode::B);
    assert_eq!(keys.b, KeyState::Pressed);
    assert_eq!(keys.a, KeyState::Up);
    assert_eq!(keys.c, KeyState::Up);
    keys.release_key(Keycode::Num3);
    assert_eq!(keys._3, KeyState::Released);
    assert_eq!(keys.b, KeyState::Pressed);
}

#[test]
fn return_drives_enter_and_control_drives_space() {
    let mut keys = KeysState::new();
    keys.press_key(Keycode::Return);
    assert_eq!(keys.enter, KeyState::Pressed);
    keys.press_key(Keycode::LCtrl);
    assert_eq!(keys.space, KeyState::Pressed);
    assert_eq!(keys.ctrl, KeyState::Up);
    keys.release_key(Keycode::RCtrl);
    assert_eq!(keys.space, KeyState::Released);
}

#[test]
fn untracked_codes() {
    assert!(!Keycode::Other(121).is_tracked());
    assert!(Keycode::X.is_tracked());
    assert!(Keycode::Escape.is_tracked());
}

#[test]
fn key_codes_round_trip() {
    assert_eq!(Keycode::from_code(97), Keycode::A);
    assert_eq!(Keycode::from_code(120), Keycode::X);
    assert_eq!(Keycode::from_code(121), Keycode::Other(121));
    assert_eq!(Keycode::from_code(8), Keycode::Backspace);
    assert_eq!(Keycode::from_code(1073741906), Keycode::Up);
    assert_eq!(Keycode::from_code(1073742052), Keycode::RCtrl);
    assert_eq!(Keycode::Num7.to_code(), 55);
    assert_eq!(Keycode::Other(-5).to_code(), -5);
}

#[test]
fn as_mut_array_reaches_every_key() {
    let mut keys = KeysState::new();
    keys.press_key(Keycode::A);
    keys.release_key(Keycode::Num9);
    for k in keys.as_mut_array() {
        k.update();
    }
    assert_eq!(keys.a, KeyState::Down);
    assert_eq!(keys._9, KeyState::Up);
    let arr = keys.as_mut_array();
    *arr[0] = KeyState::Pressed;
    *arr[37] = KeyState::Released;
    *arr[47] = KeyState::Pressed;
    assert_eq!(keys.a, KeyState::Pressed);
    assert_eq!(keys.backspace, KeyState::Released);
    assert_eq!(keys._9, KeyState::Pressed);
    let _ = Key::Backspace;
}

#[test]
fn update_all_advances_every_key() {
    let mut keys = KeysState::new();
    keys.press_key(Keycode::Left);
    keys.release_key(Keycode::Space);
    keys.update_all();
    assert_eq!(keys.left, KeyState::Down);
    assert_eq!(keys.space, KeyState::Up);
}

#[test]
fn mouse_buttons_and_motion() {
    let mut m = Mouse::new();
    m.get_event(&Event::MouseMotion { x: 10, y: 20, xrel: 3, yrel: -4 });
    assert_eq!((m.position.x, m.position.y), (10, 20));
    assert_eq!((m.delta.x, m.delta.y), (3, -4));
    m.get_event(&Event::MouseButtonDown { timestamp: 1000, mouse_btn: MouseButton::Right });
    assert_eq!(m.right_button, KeyState::Pressed);
    m.get_event(&Event::MouseWheel { y: -2 });
    assert_eq!(m.wheel, -2);
    m.update();
    assert_eq!((m.delta.x, m.delta.y), (0, 0));
    assert_eq!(m.wheel, 0);
    assert_eq!(m.right_button, KeyState::Down);
    assert_eq!((m.position.x, m.position.y), (10, 20));
}

#[test]
fn mouse_motion_is_clamped() {
    let mut m = Mouse::new();
    m.get_event(&Event::MouseMotion { x: i32::MAX, y: i32::MIN, xrel: 0, yrel: 0 });
    assert_eq!(m.position.x, 1073741823);
    assert_eq!(m.position.y, -1073741824);
}

#[test]
fn double_click() {
    let mut m = Mouse::new();
    m.get_event(&Event::MouseButtonDown { timestamp: 1000, mouse_btn: MouseButton::Left });
    assert!(!m.left_button_double_clicked());
    m.get_event(&Event::MouseButtonUp { timestamp: 1040, mouse_btn: MouseButton::Left });
    m.update();
    m.get_event(&Event::MouseButtonDown { timestamp: 1100, mouse_btn: MouseButton::Left });
    assert!(m.left_button_double_clicked());
    m.update();
    assert!(!m.left_button_double_clicked());
    m.get_event(&Event::MouseButtonUp { timestamp: 1200, mouse_btn: MouseButton::Left });
    m.update();
    m.get_event(&Event::MouseButtonDown { timestamp: 1300, mouse_btn: MouseButton::Left });
    assert!(!m.left_button_double_clicked());
}

#[test]
fn input_frame() {
    let mut input = Input::new();
    input.begin_frame();
    input.handle_event(&Event::KeyDown { keycode: Some(Keycode::Backspace) });
    input.handle_event(&Event::TextInput { text: vec!['é'] });
    assert_eq!(input.keys_state.backspace, KeyState::Pressed);
    assert_eq!(input.last_char, Some('é'));
    input.begin_frame();
    assert_eq!(input.keys_state.backspace, KeyState::Down);
    assert_eq!(input.last_char, None);
    input.handle_event(&Event::KeyUp { keycode: Some(Keycode::Backspace) });
    input.handle_event(&Event::KeyDown { keycode: None });
    assert_eq!(input.keys_state.backspace, KeyState::Released);
    assert!(!input.window_closed);
    input.handle_event(&Event::Quit);
    assert!(input.window_closed);
}

#[test]
fn supported_events() {
    assert!(Event::Quit.supported());
    assert!(Event::TextInput { text: vec!['a'] }.supported());
    assert!(!Event::TextInput { text: vec!['a', 'b'] }.supported());
    assert!(!Event::TextInput { text: vec![] }.supported());
    assert!(!Event::KeyDown { keycode: Some(Keycode::Other(122)) }.supported());
    assert!(Event::KeyUp { keycode: None }.supported());
    assert!(!Event::MouseButtonDown { timestamp: 0, mouse_btn: MouseButton::X1 }.supported());
    assert!(Event::MouseButtonUp { timestamp: 0, mouse_btn: MouseButton::Middle }.supported());
}
