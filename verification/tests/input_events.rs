use nuhxboard::board::NuhxBoard;
use nuhxboard::error::NuhxBoardError;
use nuhxboard::events::{Effect, InputEvent, KeyInput, Redraw};
use nuhxboard::layout::SerializablePoint;
use nuhxboard::mouse::MouseButton;
use nuhxboard::settings::{Capitalization, Setting, Settings};
use nuhxboard::style::{
    DefaultKeyStyle, Font, FontStyle, KeySubStyle, MouseSpeedIndicatorStyle, NohRgb, Style,
};
use nuhxboard::windows::AppWindow;
use std::collections::HashMap;

fn color(v: f32) -> NohRgb<f32> {
    NohRgb { red: v, green: v, blue: v }
}

fn sub_style(v: f32) -> KeySubStyle<f32> {
    KeySubStyle {
        background: color(v),
        text: color(v),
        outline: color(v),
        show_outline: true,
        outline_width: 1,
        font: Font { font_family: String::from("Courier New"), size: 10.0, style: FontStyle::empty() },
        background_image_file_name: None,
    }
}

fn default_style() -> Style<f32> {
    Style {
        background_color: color(100.0),
        background_image_file_name: None,
        default_key_style: DefaultKeyStyle { loose: sub_style(100.0), pressed: sub_style(255.0) },
        default_mouse_speed_indicator_style: MouseSpeedIndicatorStyle {
            inner_color: color(255.0),
            outer_color: color(255.0),
            outline_width: 1,
        },
        element_styles: HashMap::new(),
    }
}

fn board_with(settings: Settings<f32>) -> NuhxBoard<f32> {
    NuhxBoard::new(settings, None, default_style(), 200.0, 200.0, SerializablePoint { x: 0.0, y: 0.0 }).0
}

fn board() -> NuhxBoard<f32> {
    board_with(Settings::defaults(50.0, &vec![]))
}

fn key(code: u32) -> KeyInput {
    KeyInput { code: Some(code), caps_lock: false, name: format!("Key{code}") }
}

#[test]
fn key_press_then_release_clears_the_key() {
    let mut b = board();
    let effects = b.input_event(InputEvent::KeyPress(key(65)), 100);
    assert_eq!(b.pressed_keys.get(&65), Some(&100));
    assert!(matches!(effects.as_slice(), [Effect::Redraw(Redraw::KeyCode(65))]));
    let effects = b.input_event(InputEvent::KeyRelease(key(65)), 150);
    assert!(b.pressed_keys.is_empty());
    assert!(matches!(effects.as_slice(), [Effect::Redraw(Redraw::KeyCode(65))]));
}

#[test]
fn early_release_is_delivered_again_after_the_minimum_press_time() {
    let mut settings = Settings::defaults(50.0, &vec![]);
    settings.min_press_time = 100;
    let mut b = board_with(settings);
    b.input_event(InputEvent::KeyPress(key(65)), 1000);
    let effects = b.input_event(InputEvent::KeyRelease(key(65)), 1030);
    assert!(b.pressed_keys.contains_key(&65));
    match effects.as_slice() {
        [Effect::RedeliverAfter { millis, event: InputEvent::KeyRelease(k) }] => {
            assert_eq!(*millis, 70);
            assert_eq!(k.code, Some(65));
        }
        _ => panic!("expected a delayed release"),
    }
    let effects = b.input_event(InputEvent::KeyRelease(key(65)), 1100);
    assert!(b.pressed_keys.is_empty());
    assert_eq!(effects.len(), 1);
}

#[test]
fn release_without_press_is_ignored() {
    let mut b = board();
    let effects = b.input_event(InputEvent::KeyRelease(key(65)), 10);
    assert!(effects.is_empty());
    assert!(b.pressed_keys.is_empty());
}

#[test]
fn unknown_key_opens_an_error_window() {
    let mut b = board();
    let unknown = KeyInput { code: None, caps_lock: false, name: String::from("Unknown(999)") };
    let effects = b.input_event(InputEvent::KeyPress(unknown), 10);
    match effects.as_slice() {
        [Effect::OpenWindow { id, window: AppWindow::ErrorPopup(p) }] => {
            assert_eq!(*id, 1);
            assert!(matches!(&p.error, NuhxBoardError::UnknownKey(n) if n == "Unknown(999)"));
            assert_eq!(p.error.text(), "Unknown key: Unknown(999)");
        }
        _ => panic!("expected an error window"),
    }
    assert!(b.pressed_keys.is_empty());
}

#[test]
fn caps_lock_flips_texts_when_following_the_keyboard() {
    let mut b = board();
    let caps = KeyInput { code: Some(20), caps_lock: true, name: String::from("CapsLock") };
    b.input_event(InputEvent::KeyPress(caps), 1);
    assert!(b.true_caps);
    assert!(b.caps);
    b.change_setting(Setting::Capitalization(Capitalization::Lower));
    assert!(!b.caps);
    let caps = KeyInput { code: Some(20), caps_lock: true, name: String::from("CapsLock") };
    b.input_event(InputEvent::KeyPress(caps), 2);
    assert!(!b.true_caps);
    assert!(!b.caps);
    b.change_setting(Setting::Capitalization(Capitalization::Upper));
    assert!(b.caps);
    b.change_setting(Setting::Capitalization(Capitalization::Follow));
    assert!(!b.caps);
}

#[test]
fn wheel_counts_queued_releases() {
    let mut b = board();
    let effects = b.input_event(InputEvent::Wheel { delta_x: 0, delta_y: -1 }, 5);
    assert!(matches!(
        effects.as_slice(),
        [Effect::ReleaseScrollAfter { millis: 100, button: 1 }, Effect::Redraw(Redraw::ScrollButton(1))]
    ));
    b.input_event(InputEvent::Wheel { delta_x: 0, delta_y: -3 }, 6);
    assert_eq!(b.pressed_scroll_buttons.get(&1), Some(&2));
    assert!(b.release_scroll(1).is_empty());
    assert_eq!(b.pressed_scroll_buttons.get(&1), Some(&1));
    let effects = b.release_scroll(1);
    assert!(b.pressed_scroll_buttons.is_empty());
    assert!(matches!(effects.as_slice(), [Effect::Redraw(Redraw::ScrollButton(1))]));
}

#[test]
fn wheel_directions() {
    let mut b = board();
    b.input_event(InputEvent::Wheel { delta_x: -1, delta_y: 5 }, 1);
    b.input_event(InputEvent::Wheel { delta_x: 2, delta_y: 0 }, 1);
    b.input_event(InputEvent::Wheel { delta_x: 0, delta_y: 1 }, 1);
    assert!(b.pressed_scroll_buttons.contains_key(&3));
    assert!(b.pressed_scroll_buttons.contains_key(&2));
    assert!(b.pressed_scroll_buttons.contains_key(&0));
    assert!(!b.pressed_scroll_buttons.contains_key(&1));
}

#[test]
fn a_full_scroll_count_has_no_room() {
    let mut b = board();
    let up = InputEvent::Wheel { delta_x: 0, delta_y: -1 };
    assert!(b.has_room_for(&up));
    b.pressed_scroll_buttons.insert(1, u32::MAX);
    assert!(!b.has_room_for(&up));
    assert!(b.has_room_for(&InputEvent::Wheel { delta_x: 1, delta_y: -1 }));
    assert!(b.has_room_for(&InputEvent::KeyPress(key(4))));
}

#[test]
fn horizontal_wheel_buttons_are_not_buttons() {
    let mut b = board();
    assert!(b.input_event(InputEvent::ButtonPress(MouseButton::Unknown(6)), 1).is_empty());
    assert!(b.input_event(InputEvent::ButtonRelease(MouseButton::Unknown(7)), 1).is_empty());
    assert!(b.pressed_mouse_buttons.is_empty());
}

#[test]
fn unknown_button_opens_an_error_window() {
    let mut b = board();
    let effects = b.input_event(InputEvent::ButtonPress(MouseButton::Unknown(42)), 1);
    match effects.as_slice() {
        [Effect::OpenWindow { window: AppWindow::ErrorPopup(p), .. }] => {
            assert_eq!(p.error.text(), "Unknown button: Unknown(42)");
        }
        _ => panic!("expected an error window"),
    }
}

#[test]
fn mouse_buttons_press_and_release() {
    let mut b = board();
    b.input_event(InputEvent::ButtonPress(MouseButton::Right), 3);
    b.input_event(InputEvent::ButtonPress(MouseButton::Unknown(8)), 3);
    assert!(b.pressed_mouse_buttons.contains_key(&1));
    assert!(b.pressed_mouse_buttons.contains_key(&3));
    let effects = b.input_event(InputEvent::ButtonRelease(MouseButton::Right), 9);
    assert!(matches!(effects.as_slice(), [Effect::Redraw(Redraw::MouseButton(1))]));
    assert!(!b.pressed_mouse_buttons.contains_key(&1));
}

#[test]
fn detection_gives_the_code_to_every_waiting_element() {
    let mut b = board();
    b.start_detecting(2);
    b.start_detecting(5);
    b.input_event(InputEvent::KeyPress(key(81)), 1);
    assert_eq!(b.number_input.keycode.get(&2), Some(&81));
    assert_eq!(b.number_input.keycode.get(&5), Some(&81));
    assert!(b.detecting.is_empty());
    b.input_event(InputEvent::KeyPress(key(87)), 2);
    assert_eq!(b.number_input.keycode.get(&2), Some(&81));
}

#[test]
fn scroll_is_captured_too() {
    let mut b = board();
    b.start_detecting(0);
    b.input_event(InputEvent::Wheel { delta_x: 0, delta_y: -1 }, 1);
    assert_eq!(b.number_input.keycode.get(&0), Some(&1));
}
