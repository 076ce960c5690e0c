use nuhxboard::board::NuhxBoard;
use nuhxboard::events::{Change, Effect, InputEvent, KeyInput, Message, Redraw};
use nuhxboard::inputs::SelectionType;
use nuhxboard::layout::{BoardElement, ElementProperty, SerializablePoint};
use nuhxboard::settings::Settings;
use nuhxboard::style::{
    DefaultKeyStyle, Font, FontStyle, KeySubStyle, MouseSpeedIndicatorStyle, NohRgb, Style,
};
use std::collections::HashMap;

fn color(v: f32) -> NohRgb<f32> {
    NohRgb { red: v, green: v, blue: v }
}

fn sub_style(v: f32) -> KeySubStyle<f32> {
    KeySubStyle {
        background: color(v),
        text: color(v),
        outline: color(v),
        show_outline: true,
        outline_width: 1,
        font: Font { font_family: String::from("Courier New"), size: 10.0, style: FontStyle::empty() },
        background_image_file_name: None,
    }
}

fn board() -> NuhxBoard<f32> {
    let style = Style {
        background_color: color(100.0),
        background_image_file_name: None,
        default_key_style: DefaultKeyStyle { loose: sub_style(100.0), pressed: sub_style(255.0) },
        default_mouse_speed_indicator_style: MouseSpeedIndicatorStyle {
            inner_color: color(255.0),
            outer_color: color(255.0),
            outline_width: 1,
        },
        element_styles: HashMap::new(),
    };
    NuhxBoard::new(
        Settings::defaults(50.0, &vec![]),
        None,
        style,
        200.0,
        200.0,
        SerializablePoint { x: 0.0, y: 0.0 },
    )
    .0
}

fn square() -> Vec<SerializablePoint<f32>> {
    vec![
        SerializablePoint { x: 0.0, y: 0.0 },
        SerializablePoint { x: 10.0, y: 0.0 },
        SerializablePoint { x: 10.0, y: 10.0 },
        SerializablePoint { x: 0.0, y: 10.0 },
    ]
}

fn codes(b: &NuhxBoard<f32>, i: usize) -> Vec<u32> {
    match &b.layout.elements[i] {
        BoardElement::KeyboardKey(d) => d.key_codes.clone(),
        BoardElement::MouseKey(d) | BoardElement::MouseScroll(d) => d.key_codes.clone(),
        BoardElement::MouseSpeedIndicator(_) => vec![],
    }
}

fn key(code: u32) -> KeyInput {
    KeyInput { code: Some(code), caps_lock: false, name: format!("Key{code}") }
}

#[test]
fn new_elements_get_fresh_ids_at_the_right_click() {
    let mut b = board();
    b.mouse_moved(SerializablePoint { x: 40.0, y: 30.0 }, 0);
    b.right_click(0);
    b.add_keyboard_key(square());
    b.add_mouse_key(square());
    b.add_mouse_speed_indicator(20.0);
    assert_eq!(b.layout.elements.len(), 3);
    assert_eq!(b.layout.elements[0].id(), 1);
    assert_eq!(b.layout.elements[1].id(), 2);
    assert_eq!(b.layout.elements[2].id(), 3);
    assert_eq!(codes(&b, 1), vec![0]);
    match &b.layout.elements[0] {
        BoardElement::KeyboardKey(d) => {
            assert_eq!(d.text_position, SerializablePoint { x: 40.0, y: 30.0 });
            assert!(d.text.is_empty());
        }
        _ => panic!("expected a keyboard key"),
    }
    assert!(!b.layout_commited);
}

#[test]
fn key_codes_stay_sorted_without_repeats() {
    let mut b = board();
    b.add_keyboard_key(square());
    b.change_element(0, ElementProperty::Keycode(0, Some(65)));
    b.change_element(0, ElementProperty::Keycode(0, Some(65)));
    b.change_element(0, ElementProperty::Keycode(0, Some(20)));
    assert_eq!(codes(&b, 0), vec![20, 65]);
    b.change_selection(0, SelectionType::Keycode, 1);
    let effects = b.change_element(0, ElementProperty::Keycode(1, None));
    assert_eq!(codes(&b, 0), vec![20]);
    assert!(!b.selections.keycode.contains_key(&0));
    assert!(matches!(effects.as_slice(), [Effect::Redraw(Redraw::Element(0))]));
}

#[test]
fn a_mouse_key_tracks_one_button() {
    let mut b = board();
    b.add_mouse_key(square());
    b.change_element(0, ElementProperty::Keycode(0, Some(3)));
    assert_eq!(codes(&b, 0), vec![3]);
}

#[test]
fn element_texts_and_boundaries_change() {
    let mut b = board();
    b.add_keyboard_key(square());
    b.change_element(0, ElementProperty::Text(String::from("a")));
    b.change_element(0, ElementProperty::ShiftText(String::from("A")));
    b.change_element(0, ElementProperty::FollowCaps);
    b.change_element(0, ElementProperty::Boundary(4, Some(SerializablePoint { x: 5.0, y: 15.0 })));
    b.change_element(0, ElementProperty::Boundary(0, None));
    match &b.layout.elements[0] {
        BoardElement::KeyboardKey(d) => {
            assert_eq!(d.text, "a");
            assert_eq!(d.shift_text, "A");
            assert!(d.change_on_caps);
            assert_eq!(d.boundaries.len(), 4);
            assert_eq!(d.boundaries[3], SerializablePoint { x: 5.0, y: 15.0 });
        }
        _ => panic!("expected a keyboard key"),
    }
}

#[test]
fn swapping_boundaries_selects_the_right_one() {
    let mut b = board();
    b.add_keyboard_key(square());
    b.swap_boundaries(0, 0, 2);
    match &b.layout.elements[0] {
        BoardElement::KeyboardKey(d) => {
            assert_eq!(d.boundaries[0], SerializablePoint { x: 10.0, y: 10.0 });
            assert_eq!(d.boundaries[2], SerializablePoint { x: 0.0, y: 0.0 });
        }
        _ => panic!("expected a keyboard key"),
    }
    assert_eq!(b.selections.boundary.get(&0), Some(&2));
}

#[test]
fn removing_the_hovered_element() {
    let mut b = board();
    b.add_keyboard_key(square());
    b.add_mouse_scroll(square());
    b.remove_element();
    assert_eq!(b.layout.elements.len(), 2);
    b.update_hovered_element(Some(0));
    b.remove_element();
    assert_eq!(b.layout.elements.len(), 1);
    assert_eq!(b.layout.elements[0].id(), 2);
    assert_eq!(b.hovered_element, None);
}

#[test]
fn undo_and_redo_hand_out_the_edits() {
    let mut b = board();
    let change = Change::MoveElement { index: 0, delta: SerializablePoint { x: 1.0, y: 2.0 }, move_text: true };
    b.update(Message::PushChange(change));
    assert!(!b.layout_commited);
    let effects = b.update(Message::Undo);
    assert!(matches!(effects.as_slice(), [Effect::ApplyChange { change: c, undo: true }] if *c == change));
    assert!(b.update(Message::Undo).is_empty());
    let effects = b.redo();
    assert!(matches!(effects.as_slice(), [Effect::ApplyChange { undo: false, .. }]));
    assert!(b.redo().is_empty());
}

#[test]
fn an_element_is_pressed_only_with_all_its_codes() {
    let mut b = board();
    b.add_keyboard_key(square());
    b.change_element(0, ElementProperty::Keycode(0, Some(16)));
    b.change_element(0, ElementProperty::Keycode(0, Some(65)));
    b.input_event(InputEvent::KeyPress(key(65)), 1);
    assert!(!b.element_pressed(0));
    b.input_event(InputEvent::KeyPress(key(16)), 2);
    assert!(b.element_pressed(0));
    assert_eq!(b.element_sub_style(0).background, color(255.0));
}

#[test]
fn a_key_without_codes_is_never_pressed() {
    let mut b = board();
    b.add_keyboard_key(square());
    assert!(!b.element_pressed(0));
    assert_eq!(b.element_sub_style(0).background, color(100.0));
}

#[test]
fn shift_text_follows_shift_and_caps() {
    let mut b = board();
    b.add_keyboard_key(square());
    b.change_element(0, ElementProperty::Text(String::from("a")));
    b.change_element(0, ElementProperty::ShiftText(String::from("A")));
    assert_eq!(b.element_text(0, 160, 161), "a");
    b.input_event(InputEvent::KeyPress(key(161)), 1);
    assert_eq!(b.element_text(0, 160, 161), "A");
    b.change_element(0, ElementProperty::FollowCaps);
    let caps = KeyInput { code: Some(20), caps_lock: true, name: String::from("CapsLock") };
    b.input_event(InputEvent::KeyPress(caps), 2);
    assert_eq!(b.element_text(0, 160, 161), "a");
}

#[test]
fn making_a_rectangle_closes_its_windows() {
    let mut b = board();
    b.add_mouse_scroll(square());
    let effects = b.make_rectangle(0, vec![SerializablePoint { x: 1.0, y: 1.0 }]);
    assert!(matches!(effects.as_slice(), [Effect::Redraw(Redraw::Element(0)), Effect::CloseWindows(ids)] if ids.is_empty()));
    match &b.layout.elements[0] {
        BoardElement::MouseScroll(d) => assert_eq!(d.boundaries.len(), 1),
        _ => panic!("expected a mouse scroll"),
    }
}

#[test]
fn ids_stay_distinct_after_a_removal() {
    let mut b = board();
    b.add_keyboard_key(square());
    b.add_mouse_scroll(square());
    b.add_keyboard_key(square());
    b.update_hovered_element(Some(0));
    b.remove_element();
    b.update(Message::AddMouseKey(square()));
    let ids: Vec<u32> = b.layout.elements.iter().map(|e| e.id()).collect();
    assert_eq!(ids, vec![2, 3, 4]);
}

#[test]
fn the_last_face_ends_at_the_first_vertex() {
    assert_eq!(nuhxboard::layout::face_ends(0, 4), (0, 1));
    assert_eq!(nuhxboard::layout::face_ends(2, 4), (2, 3));
    assert_eq!(nuhxboard::layout::face_ends(3, 4), (3, 0));
    assert_eq!(nuhxboard::layout::face_ends(0, 1), (0, 0));
}
