use nuhxboard::board::NuhxBoard;
use nuhxboard::events::{Effect, Redraw, StyleSetting};
use nuhxboard::inputs::TextInputType;
use nuhxboard::layout::SerializablePoint;
use nuhxboard::pickers::ColorPicker;
use nuhxboard::settings::Settings;
use nuhxboard::style::{
    DefaultKeyStyle, ElementStyle, Font, FontStyle, KeySubStyle, MouseSpeedIndicatorStyle, NohRgb,
    Style,
};
use std::collections::HashMap;

fn color(v: f32) -> NohRgb<f32> {
    NohRgb { red: v, green: v, blue: v }
}

fn sub_style(v: f32) -> KeySubStyle<f32> {
    KeySubStyle {
        background: color(v),
        text: color(v),
        outline: color(v),
        show_outline: true,
        outline_width: 1,
        font: Font { font_family: String::from("Courier New"), size: 10.0, style: FontStyle::empty() },
        background_image_file_name: None,
    }
}

fn board() -> NuhxBoard<f32> {
    let style = Style {
        background_color: color(100.0),
        background_image_file_name: None,
        default_key_style: DefaultKeyStyle { loose: sub_style(100.0), pressed: sub_style(255.0) },
        default_mouse_speed_indicator_style: MouseSpeedIndicatorStyle {
            inner_color: color(255.0),
            outer_color: color(255.0),
            outline_width: 1,
        },
        element_styles: HashMap::new(),
    };
    let mut settings = Settings::defaults(50.0, &vec![]);
    settings.category = String::from("kbd");
    NuhxBoard::new(settings, None, style, 200.0, 200.0, SerializablePoint { x: 0.0, y: 0.0 }).0
}

#[test]
fn layout_wide_font_comes_from_the_text_input() {
    let mut b = board();
    b.change_text_input(TextInputType::DefaultLooseKeyFontFamily, String::from("Mono"));
    let effects = b.change_style(StyleSetting::DefaultLooseKeyFontFamily);
    assert_eq!(b.style.default_key_style.loose.font.font_family, "Mono");
    assert!(!b.style_commited);
    assert!(matches!(effects.as_slice(), [Effect::Redraw(Redraw::All)]));
}

#[test]
fn an_empty_image_input_removes_the_image() {
    let mut b = board();
    b.change_text_input(TextInputType::DefaultPressedKeyBackgroundImage, String::from("p.png"));
    b.change_style(StyleSetting::DefaultPressedKeyBackgroundImage);
    assert_eq!(b.style.default_key_style.pressed.background_image_file_name.as_deref(), Some("p.png"));
    b.change_text_input(TextInputType::DefaultPressedKeyBackgroundImage, String::new());
    b.change_style(StyleSetting::DefaultPressedKeyBackgroundImage);
    assert_eq!(b.style.default_key_style.pressed.background_image_file_name, None);
}

#[test]
fn the_keyboard_background_image_is_rendered_for_the_category() {
    let mut b = board();
    b.change_text_input(TextInputType::KeyboardBackgroundImage, String::from("bg.png"));
    let effects = b.change_style(StyleSetting::KeyboardBackgroundImage);
    assert!(matches!(
        effects.as_slice(),
        [Effect::RefreshBackgroundImage { category, file_name: Some(f) }] if category == "kbd" && f == "bg.png"
    ));
    assert_eq!(b.style.background_image_file_name.as_deref(), Some("bg.png"));
}

#[test]
fn a_key_gets_its_own_style_from_the_default() {
    let mut b = board();
    let effects = b.change_style(StyleSetting::PressedKeyOutlineWidth { id: 7, width: 4 });
    assert!(matches!(effects.as_slice(), [Effect::Redraw(Redraw::Id(7)), Effect::Redraw(Redraw::Id(7))]));
    match b.style.element_styles.get(&7) {
        Some(ElementStyle::KeyStyle(k)) => {
            assert_eq!(k.pressed.as_ref().unwrap().outline_width, 4);
            assert_eq!(k.loose.as_ref().unwrap().outline_width, 1);
            assert_eq!(k.loose.as_ref().unwrap().background, color(100.0));
        }
        _ => panic!("expected a key style"),
    }
    b.change_style(StyleSetting::LooseKeyShowOutline(7));
    match b.style.element_styles.get(&7) {
        Some(ElementStyle::KeyStyle(k)) => {
            assert!(!k.loose.as_ref().unwrap().show_outline);
            assert_eq!(k.pressed.as_ref().unwrap().outline_width, 4);
        }
        _ => panic!("expected a key style"),
    }
    b.change_style(StyleSetting::LooseKeyFontStyle { id: 7, style: FontStyle::bold() });
    b.change_style(StyleSetting::LooseKeyFontStyle { id: 7, style: FontStyle::italic() });
    match b.style.element_styles.get(&7) {
        Some(ElementStyle::KeyStyle(k)) => assert_eq!(k.loose.as_ref().unwrap().font.style.bits(), 3),
        _ => panic!("expected a key style"),
    }
}

#[test]
fn picking_a_color_toggles_its_picker() {
    let mut b = board();
    b.toggle_color_picker(ColorPicker::LooseText(3));
    let effects = b.change_color(ColorPicker::LooseText(3), color(9.0));
    assert!(matches!(effects.as_slice(), [Effect::Redraw(Redraw::Id(3))]));
    assert_eq!(b.color_pickers.loose_text.get(&3), Some(&false));
    match b.style.element_styles.get(&3) {
        Some(ElementStyle::KeyStyle(k)) => assert_eq!(k.loose.as_ref().unwrap().text, color(9.0)),
        _ => panic!("expected a key style"),
    }
    let effects = b.change_color(ColorPicker::KeyboardBackground, color(1.0));
    assert!(effects.is_empty());
    assert_eq!(b.style.background_color, color(1.0));
    assert!(b.color_pickers.keyboard_background);
}

#[test]
fn indicator_styles_start_from_the_default() {
    let mut b = board();
    let effects = b.change_color(ColorPicker::MouseSpeedIndicator2(5), color(3.0));
    assert!(matches!(effects.as_slice(), [Effect::Redraw(Redraw::Id(5))]));
    b.change_style(StyleSetting::MouseSpeedIndicatorOutlineWidth { id: 5, width: 6 });
    match b.style.element_styles.get(&5) {
        Some(ElementStyle::MouseSpeedIndicatorStyle(m)) => {
            assert_eq!(m.outer_color, color(3.0));
            assert_eq!(m.inner_color, color(255.0));
            assert_eq!(m.outline_width, 6);
        }
        _ => panic!("expected an indicator style"),
    }
    let effects = b.change_style(StyleSetting::DefaultMouseSpeedIndicatorOutlineWidth(2));
    assert!(matches!(effects.as_slice(), [Effect::Redraw(Redraw::MouseSpeedIndicators)]));
    assert_eq!(b.style.default_mouse_speed_indicator_style.outline_width, 2);
}
