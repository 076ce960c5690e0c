use nuhxboard::motion::{MotionOrigin, MotionStep, MotionTracker};
use nuhxboard::board::NuhxBoard;
use nuhxboard::choices::StyleChoice;
use nuhxboard::code_convert::code_convert;
use nuhxboard::error::{decimal_text, NuhxBoardError};
use nuhxboard::events::{edit_shortcut, EditShortcut, Effect, Message, Redraw};
use nuhxboard::history::EditHistory;
use nuhxboard::layout::SerializablePoint;
use nuhxboard::mouse::{
    is_scroll_wheel_button, mouse_button_code_convert, MouseButton, MouseKey, MouseScroll,
    UnknownButton,
};
use nuhxboard::options::{text_le_exec, DirEntryInfo};
use nuhxboard::pickers::{ColorPicker, ColorPickers};
use nuhxboard::popups::Action;
use nuhxboard::settings::{shows_shift_text, Capitalization, Display, Settings};
use nuhxboard::style::{
    DefaultKeyStyle, Font, FontStyle, KeySubStyle, MouseSpeedIndicatorStyle, NohRgb, Style,
};
use nuhxboard::windows::{
    AppWindow, ElementProperties, ElementStyle, ErrorPopup, KeyboardStyle, Main, RectangleDialog,
    UnsavedChangesPopup,
};
use std::collections::HashMap;

fn color(v: f32) -> NohRgb<f32> {
    NohRgb { red: v, green: v, blue: v }
}

fn sub_style(v: f32) -> KeySubStyle<f32> {
    KeySubStyle {
        background: color(v),
        text: color(v),
        outline: color(v),
        show_outline: true,
        outline_width: 1,
        font: Font { font_family: String::from("Courier New"), size: 10.0, style: FontStyle::empty() },
        background_image_file_name: None,
    }
}

fn board() -> NuhxBoard<f32> {
    board_with_error(None)
}

fn board_with_error(settings_error: Option<String>) -> NuhxBoard<f32> {
    let style = Style {
        background_color: color(100.0),
        background_image_file_name: None,
        default_key_style: DefaultKeyStyle { loose: sub_style(100.0), pressed: sub_style(255.0) },
        default_mouse_speed_indicator_style: MouseSpeedIndicatorStyle {
            inner_color: color(255.0),
            outer_color: color(255.0),
            outline_width: 1,
        },
        element_styles: HashMap::new(),
    };
    NuhxBoard::new(
        Settings::defaults(50.0, &vec![]),
        settings_error,
        style,
        200.0,
        200.0,
        SerializablePoint { x: 0.0, y: 0.0 },
    )
    .0
}

#[test]
fn xinput_codes_become_windows_codes() {
    assert_eq!(code_convert(1), 0);
    assert_eq!(code_convert(3), 1);
    assert_eq!(code_convert(4), 22);
    assert_eq!(code_convert(10), 49);
    assert_eq!(code_convert(18), 57);
    assert_eq!(code_convert(22), 8);
    assert_eq!(code_convert(23), 9);
    assert_eq!(code_convert(19), 48);
    assert_eq!(code_convert(38), 65);
    assert_eq!(code_convert(65), 32);
}

#[test]
fn mouse_buttons_have_codes() {
    assert_eq!(mouse_button_code_convert(MouseButton::Left), Ok(0));
    assert_eq!(mouse_button_code_convert(MouseButton::Right), Ok(1));
    assert_eq!(mouse_button_code_convert(MouseButton::Middle), Ok(2));
    assert_eq!(mouse_button_code_convert(MouseButton::Unknown(19)), Ok(3));
    assert_eq!(mouse_button_code_convert(MouseButton::Unknown(9)), Ok(4));
    assert_eq!(mouse_button_code_convert(MouseButton::Unknown(6)), Ok(6));
    assert_eq!(mouse_button_code_convert(MouseButton::Unknown(3)), Err(UnknownButton));
    assert!(is_scroll_wheel_button(MouseButton::Unknown(7)));
    assert!(!is_scroll_wheel_button(MouseButton::Unknown(8)));
}

#[test]
fn mouse_keys_and_scrolls_round_trip() {
    assert_eq!(u32::from(MouseKey::Forward), 4);
    assert_eq!(MouseKey::try_from(2u32), Ok(MouseKey::Middle));
    assert!(MouseKey::try_from(9u32).is_err());
    assert_eq!(MouseKey::Back.to_string(), "Back");
    assert_eq!(u32::from(MouseScroll::Left), 3);
    assert_eq!(MouseScroll::try_from(2u32), Ok(MouseScroll::Right));
    assert_eq!(MouseScroll::Down.to_string(), "Down");
}

#[test]
fn style_choices_are_named() {
    let global = StyleChoice::Global(String::from("neon"));
    let custom = StyleChoice::Custom(String::from("dark"));
    assert_eq!(StyleChoice::Default.to_string(), "Global Default");
    assert_eq!(global.to_string(), "Global: neon");
    assert_eq!(global.name(), "neon");
    assert_eq!(custom.name(), "dark");
    assert!(global.is_global());
    assert!(!custom.is_global());
    assert!(global.text_le(&custom));
    assert!(!custom.text_le(&global));
}

#[test]
fn texts_are_ordered_by_characters() {
    assert!(text_le_exec("abc", "abd"));
    assert!(text_le_exec("ab", "abc"));
    assert!(text_le_exec("Zeta", "alpha"));
    assert!(!text_le_exec("b", "a"));
    assert!(text_le_exec("same", "same"));
}

#[test]
fn actions_in_words() {
    assert_eq!(Action::LoadKeyboard.present_tense(), "Loading a new keyboard");
    assert_eq!(Action::Exit.present_tense(), "Exiting");
    assert_eq!(Action::Exit.future_tense(), "exit");
}

#[test]
fn error_texts() {
    assert_eq!(NuhxBoardError::SettingsParse(String::from("x")).text(), "Error parsing settings. Using default settings");
    assert_eq!(NuhxBoardError::LayoutOpen(String::from("gone")).info(), "gone");
    assert_eq!(NuhxBoardError::UnknownButton(MouseButton::Left).text(), "Unknown button: Left");
    assert_eq!(NuhxBoardError::UnknownButton(MouseButton::Unknown(255)).text(), "Unknown button: Unknown(255)");
    assert_eq!(NuhxBoardError::UnknownKey(String::from("F24")).info(), "");
    assert_eq!(decimal_text(0), "0");
    assert_eq!(decimal_text(7), "7");
    assert_eq!(decimal_text(40), "40");
    assert_eq!(decimal_text(109), "109");
}

#[test]
fn window_titles() {
    let mut b = board();
    b.add_keyboard_key(vec![SerializablePoint { x: 0.0, y: 0.0 }]);
    b.add_mouse_speed_indicator(20.0);
    assert_eq!(b.window_title(&AppWindow::Main(Main)), "NuhxBoard");
    assert_eq!(b.window_title(&AppWindow::KeyboardStyle(KeyboardStyle)), "Keyboard Style");
    assert_eq!(b.window_title(&AppWindow::ElementProperties(ElementProperties { index: 0 })), "Keyboard Key Properties");
    assert_eq!(b.window_title(&AppWindow::ElementProperties(ElementProperties { index: 1 })), "Mouse Speed Indicator Properties");
    assert_eq!(b.window_title(&AppWindow::ElementStyle(ElementStyle { id: 1 })), "Key Style");
    assert_eq!(b.window_title(&AppWindow::ElementStyle(ElementStyle { id: 2 })), "Mouse Speed Indicator Style");
    assert_eq!(b.window_title(&AppWindow::RectangleDialog(RectangleDialog { index: 0 })), "Rectangle");
    assert_eq!(b.window_title(&AppWindow::UnsavedChangesPopup(UnsavedChangesPopup(Action::Exit))), "Discard changes");
    let err = AppWindow::ErrorPopup(ErrorPopup { error: NuhxBoardError::StyleOpen(String::new()) });
    assert_eq!(b.window_title(&err), "Error");
}

#[test]
fn default_settings_use_the_primary_display() {
    let displays = vec![
        Display { id: 4, is_primary: false },
        Display { id: 9, is_primary: true },
        Display { id: 2, is_primary: false },
    ];
    let s: Settings<f32> = Settings::defaults(50.0, &displays);
    assert_eq!(s.display_choice.id, 9);
    assert!(s.display_choice.primary);
    assert_eq!(s.capitalization, Capitalization::Follow);
    assert_eq!(s.scroll_hold_time, 100);
    assert_eq!(s.min_press_time, 0);
    assert_eq!(s.window_title, "NuhxBoard");
    let none: Settings<f32> = Settings::defaults(1.0, &vec![]);
    assert_eq!(none.display_choice.id, 0);
}

#[test]
fn shift_text_rules() {
    assert!(shows_shift_text(false, false, true, Capitalization::Follow, false, false));
    assert!(!shows_shift_text(false, false, true, Capitalization::Lower, false, false));
    assert!(shows_shift_text(false, false, true, Capitalization::Lower, false, true));
    assert!(shows_shift_text(true, true, false, Capitalization::Upper, false, false));
    assert!(!shows_shift_text(true, true, true, Capitalization::Upper, true, false));
}

#[test]
fn undo_shortcuts() {
    assert_eq!(edit_shortcut(true, false, false, true, false), Some(EditShortcut::Undo));
    assert_eq!(edit_shortcut(true, true, true, false, true), Some(EditShortcut::Redo));
    assert_eq!(edit_shortcut(true, false, true, false, false), None);
    assert_eq!(edit_shortcut(false, false, false, true, false), None);
}

#[test]
fn color_pickers_toggle() {
    let mut p = ColorPickers::new();
    p.toggle(ColorPicker::DefaultLooseText);
    assert!(p.default_loose_text);
    p.toggle(ColorPicker::PressedOutline(4));
    assert_eq!(p.pressed_outline.get(&4), Some(&true));
    p.toggle(ColorPicker::PressedOutline(4));
    assert_eq!(p.pressed_outline.get(&4), Some(&false));
    assert!(!*p.get_mut(ColorPicker::MouseSpeedIndicator1(2)));
    assert_eq!(p.mouse_speed_indicator_1.get(&2), Some(&false));
}

#[test]
fn opening_a_picker_records_only_it() {
    let mut cp = ColorPickers::default();
    let r = *cp.get_mut(ColorPicker::PressedOutline(7));
    assert!(!r);
    assert_eq!(cp.pressed_outline, HashMap::from([(7u32, false)]));
    assert!(cp.pressed_text.is_empty());
    assert!(!cp.default_pressed_outline);
}

#[test]
fn history_push_undo_redo() {
    let mut h: EditHistory<u32> = EditHistory::new();
    h.push(1);
    h.push(2);
    assert_eq!(h.undo(), Some(2));
    assert_eq!(h.undo(), Some(1));
    assert_eq!(h.undo(), None);
    assert_eq!(h.redo(), Some(1));
    h.push(3);
    assert_eq!(h.redo(), None);
    assert_eq!(h.len(), 2);
    assert_eq!(h.undo(), Some(3));
}

#[test]
fn font_style_flags() {
    let mut f = FontStyle::empty();
    f.toggle(FontStyle::bold());
    assert!(f.contains(FontStyle::bold()));
    f.toggle(FontStyle::underline());
    assert_eq!(f.bits(), 0b101);
    f.toggle(FontStyle::bold());
    assert!(!f.contains(FontStyle::bold()));
    assert_eq!(FontStyle::from_bits(16), None);
}

#[test]
fn dir_entries_hold_plain_values() {
    let e = DirEntryInfo { name: String::from("a.style"), is_dir: false, is_file: true, extension: Some(String::from("style")), stem: Some(String::from("a")) };
    assert!(e.is_file);
}

#[test]
fn pointer_movements_are_debounced_and_measured() {
    let mut settings: Settings<f32> = Settings::defaults(50.0, &vec![]);
    settings.mouse_from_center = false;
    let mut t = MotionTracker::new(100);
    let (step, effects) = t.moved::<f32>(105, &settings);
    assert_eq!(step, MotionStep::Ignore);
    assert!(effects.is_empty());
    assert_eq!(t.previous_time, 100);
    assert_eq!(t.moved::<f32>(50, &settings).0, MotionStep::Ignore);
    let (step, effects) = t.moved::<f32>(110, &settings);
    assert_eq!(step, MotionStep::Measure { elapsed: 10, origin: MotionOrigin::PreviousPosition });
    assert!(matches!(effects.as_slice(), [Effect::Redraw(Redraw::MouseSpeedIndicators)]));
    assert_eq!(t.previous_time, 110);
    settings.mouse_from_center = true;
    settings.display_choice.id = 7;
    assert_eq!(
        t.moved::<f32>(140, &settings).0,
        MotionStep::Measure { elapsed: 30, origin: MotionOrigin::DisplayCentre(7) }
    );
}

#[test]
fn a_new_board_names_its_next_window() {
    let mut b = board();
    assert_eq!(b.windows.open(AppWindow::Main(Main)), 1);
    let mut b = board_with_error(Some(String::from("bad settings")));
    assert_eq!(b.windows.open(AppWindow::Main(Main)), 2);
}

#[test]
fn the_board_tells_which_messages_it_can_take() {
    let b = board();
    assert!(b.allows(&Message::Undo));
    assert!(!b.allows(&Message::ClearCache(0)));
    assert!(!b.allows(&Message::ChangeKeyboardCategory(String::new())));
    assert!(b.allows(&Message::ChangeKeyboardCategory(String::from("desktop"))));
    assert!(!b.allows(&Message::SaveLayout(None)));
    assert!(b.allows(&Message::AddKeyboardKey(vec![])));
}
