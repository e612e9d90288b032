use pg_sdl::bloc::{Bloc, BlocIds};
use pg_sdl::color::Colors;
use pg_sdl::fps::FpsCounter;
use pg_sdl::geometry::Rect;
use pg_sdl::grid::{axis_column, axis_row, grid_h_align, grid_line_drawn, grid_v_align, label_align, tick_span};
use pg_sdl::input::key_state::Keycode;
use pg_sdl::input::Event;
use pg_sdl::oxy::{Input, KeyState, KeysState};
use pg_sdl::style::{Align, HAlign, VAlign};

#[test]
fn oxy_report_cycle() {
    let mut keys = KeysState::new();
    assert!(keys.set_key_state(Keycode::A, true));
    assert_eq!(keys.a, KeyState::Pressed);
    keys.set_key_state(Keycode::A, true);
    assert_eq!(keys.a, KeyState::Pressed);
    keys.update_all();
    keys.set_key_state(Keycode::A, true);
    assert_eq!(keys.a, KeyState::Down);
    keys.set_key_state(Keycode::A, false);
    assert_eq!(keys.a, KeyState::Released);
    keys.update_all();
    assert_eq!(keys.a, KeyState::Up);
    keys.set_key_state(Keycode::A, false);
    assert_eq!(keys.a, KeyState::Up);
    assert!(!keys.set_key_state(Keycode::Space, true));
    assert_eq!(keys.space, KeyState::Up);
    assert!(keys.set_key_state(Keycode::Escape, true));
    assert_eq!(keys.esc, KeyState::Pressed);
}

#[test]
fn oxy_input_typed_chars() {
    let mut input = Input::new();
    input.begin_frame();
    assert!(!input.handle_event(&Event::KeyDown { keycode: Some(Keycode::B) }));
    assert_eq!(input.last_char, Some('b'));
    assert_eq!(input.keys_state.b, KeyState::Pressed);
    assert!(input.handle_event(&Event::KeyDown { keycode: Some(Keycode::Up) }));
    assert_eq!(input.last_char, Some('R'));
    assert!(input.handle_event(&Event::KeyDown { keycode: Some(Keycode::LCtrl) }));
    assert_eq!(input.last_char, Some('R'));
    input.handle_event(&Event::KeyDown { keycode: Some(Keycode::Return) });
    assert_eq!(input.last_char, Some('\r'));
    input.handle_event(&Event::KeyDown { keycode: Some(Keycode::Other(-159)) });
    assert_eq!(input.last_char, Some('a'));
    input.begin_frame();
    assert_eq!(input.last_char, None);
    assert_eq!(input.keys_state.b, KeyState::Down);
    input.handle_event(&Event::Quit);
    assert!(input.should_quit);
}

#[test]
fn grid_decisions() {
    assert_eq!(grid_h_align(true, 0, 800), HAlign::Left);
    assert_eq!(grid_h_align(false, 799, 800), HAlign::Center);
    assert_eq!(grid_h_align(false, 800, 800), HAlign::Right);
    assert_eq!(grid_v_align(false, 10, 600), VAlign::Center);
    assert_eq!(grid_v_align(true, 10, 600), VAlign::Top);
    assert_eq!(grid_v_align(false, 4000, 600), VAlign::Bottom);
    assert_eq!(label_align(HAlign::Center, VAlign::Center), Align::TopLeft);
    assert_eq!(label_align(HAlign::Right, VAlign::Bottom), Align::BottomRight);
    assert_eq!(label_align(HAlign::Left, VAlign::Center), Align::TopLeft);
    assert_eq!(axis_column(HAlign::Left, 5, 800), 0);
    assert_eq!(axis_column(HAlign::Center, 5, 800), 5);
    assert_eq!(axis_column(HAlign::Right, 5, 800), 799);
    assert_eq!(axis_row(VAlign::Bottom, 5, 600), 599);
    assert!(grid_line_drawn(3, 0, 2));
    assert!(!grid_line_drawn(10, 1, 2));
    assert!(grid_line_drawn(10, 2, 2));
    assert!(!grid_line_drawn(-15, 0, 2));
    assert!(grid_line_drawn(-7, 0, 2));
    assert_eq!(tick_span(HAlign::Left, 0, 800, 2), (-16, 16));
    assert_eq!(tick_span(HAlign::Center, 300, 800, 1), (292, 308));
    assert_eq!(tick_span(HAlign::Right, 0, 800, 1), (791, 807));
}

#[test]
fn bloc_ids_increase() {
    let mut ids = BlocIds::new();
    let a = Bloc::new(&mut ids, Colors::magenta(), Rect::new(120, 230, 110, 80));
    let b = Bloc::new(&mut ids, Colors::red(), Rect::new(0, 0, 10, 10));
    assert_eq!(a.id, 1);
    assert_eq!(b.id, 2);
    assert_eq!(a.parent, None);
    assert_eq!(b.child, None);
    assert_eq!(a.color, Colors::magenta());
}

#[test]
fn fps_counter() {
    let mut fps = FpsCounter::new();
    assert!(!fps.tick(false));
    assert!(!fps.tick(false));
    assert_eq!(fps.frame_count, 2);
    assert!(fps.tick(true));
    assert_eq!(fps.frame_rate, 9);
    assert_eq!(fps.frame_count, 0);
    fps.tick(false);
    assert_eq!(fps.frame_rate, 9);
}
