use nuhxboard::board::NuhxBoard;
use nuhxboard::choices::StyleChoice;
use nuhxboard::error::NuhxBoardError;
use nuhxboard::events::{Effect, LoadOutcome, Redraw, SaveTarget, StyleFile};
use nuhxboard::layout::{Layout, SerializablePoint};
use nuhxboard::options::DirEntryInfo;
use nuhxboard::popups::Action;
use nuhxboard::settings::Settings;
use nuhxboard::style::{
    DefaultKeyStyle, Font, FontStyle, KeySubStyle, MouseSpeedIndicatorStyle, NohRgb, Style,
};
use nuhxboard::windows::{AppWindow, LoadKeyboard, SaveStyleAs, UnsavedChangesPopup};
use std::collections::HashMap;

fn color(v: f32) -> NohRgb<f32> {
    NohRgb { red: v, green: v, blue: v }
}

fn sub_style(v: f32, image: Option<&str>) -> KeySubStyle<f32> {
    KeySubStyle {
        background: color(v),
        text: color(v),
        outline: color(v),
        show_outline: true,
        outline_width: 1,
        font: Font { font_family: String::from("Courier New"), size: 10.0, style: FontStyle::empty() },
        background_image_file_name: image.map(String::from),
    }
}

fn style(background: Option<&str>) -> Style<f32> {
    Style {
        background_color: color(100.0),
        background_image_file_name: background.map(String::from),
        default_key_style: DefaultKeyStyle {
            loose: sub_style(100.0, Some("loose.png")),
            pressed: sub_style(255.0, None),
        },
        default_mouse_speed_indicator_style: MouseSpeedIndicatorStyle {
            inner_color: color(255.0),
            outer_color: color(255.0),
            outline_width: 1,
        },
        element_styles: HashMap::new(),
    }
}

fn board() -> NuhxBoard<f32> {
    NuhxBoard::new(
        Settings::defaults(50.0, &vec![]),
        None,
        style(None),
        200.0,
        200.0,
        SerializablePoint { x: 0.0, y: 0.0 },
    )
    .0
}

fn dir(name: &str) -> DirEntryInfo {
    DirEntryInfo { name: String::from(name), is_dir: true, is_file: false, extension: None, stem: None }
}

fn file(stem: &str, ext: &str) -> DirEntryInfo {
    DirEntryInfo {
        name: format!("{stem}.{ext}"),
        is_dir: false,
        is_file: true,
        extension: Some(String::from(ext)),
        stem: Some(String::from(stem)),
    }
}

fn empty_layout(width: f32, height: f32) -> Layout<f32> {
    Layout { version: None, width, height, elements: Vec::new() }
}

/// A board with category `kbd`, layout `main` loaded, and styles `dark` (own) and `neon`
/// (global).
fn loaded_board() -> NuhxBoard<f32> {
    let mut b = board();
    b.change_keyboard_category(String::from("kbd"));
    b.layouts_listed(&vec![dir("main"), dir("images"), dir("alt")]);
    let index = b.layout_options.iter().position(|n| n == "main").unwrap();
    b.load_layout(index);
    b.layout_loaded(
        LoadOutcome::Loaded(empty_layout(300.0, 100.0)),
        &vec![file("keyboard", "json"), file("dark", "style")],
        &vec![file("neon", "style"), file("notes", "txt")],
    );
    b
}

#[test]
fn changing_category_lists_its_layouts() {
    let mut b = board();
    let effects = b.change_keyboard_category(String::from("kbd"));
    assert!(matches!(effects.as_slice(), [Effect::ListLayouts { category }] if category == "kbd"));
    assert_eq!(b.settings.category, "kbd");
    assert_eq!(b.text_input.save_keyboard_as_category, "kbd");
    assert_eq!(b.layout_choice, None);
    assert!(b.style_options.is_empty());
}

#[test]
fn layouts_are_sorted_directories_without_images() {
    let mut b = board();
    b.layouts_listed(&vec![dir("zeta"), dir("images"), file("x", "json"), dir("alpha"), dir("Beta")]);
    assert_eq!(b.layout_options, vec!["Beta", "alpha", "zeta"]);
}

#[test]
fn categories_leave_out_global() {
    let mut b = board();
    b.categories_listed(&vec![dir("global"), dir("mice"), dir("keyboards")]);
    assert_eq!(b.keyboard_category_options, vec!["keyboards", "mice"]);
}

#[test]
fn loading_a_layout_past_the_list_opens_an_error() {
    let mut b = board();
    let effects = b.load_layout(3);
    match effects.as_slice() {
        [Effect::OpenWindow { window: AppWindow::ErrorPopup(p), .. }] => {
            assert!(matches!(&p.error, NuhxBoardError::LayoutOpen(t) if t == "Provided layout index is out of bounds"));
        }
        _ => panic!("expected an error window"),
    }
}

#[test]
fn loading_a_layout_reads_it_then_lists_styles() {
    let mut b = board();
    b.change_keyboard_category(String::from("kbd"));
    b.layouts_listed(&vec![dir("main")]);
    b.toggle_edit_mode();
    let effects = b.load_layout(0);
    assert!(matches!(effects.as_slice(), [Effect::ReadLayout { category, name }] if category == "kbd" && name == "main"));
    assert!(!b.edit_mode);
    assert_eq!(b.layout_choice, Some(0));
    assert_eq!(b.text_input.save_keyboard_as_name, "main");
    let effects = b.layout_loaded(
        LoadOutcome::Loaded(empty_layout(300.0, 100.0)),
        &vec![file("dark", "style")],
        &vec![file("neon", "style")],
    );
    assert!(matches!(
        effects.as_slice(),
        [Effect::Redraw(Redraw::All), Effect::ResizeMainWindow { width, height }] if *width == 300.0 && *height == 100.0
    ));
    assert_eq!(b.style_options.len(), 3);
    assert!(matches!(&b.style_options[0], StyleChoice::Default));
    assert!(matches!(&b.style_options[1], StyleChoice::Custom(n) if n == "dark"));
    assert!(matches!(&b.style_options[2], StyleChoice::Global(n) if n == "neon"));
    assert_eq!(b.style_choice, 0);
    assert_eq!(b.layout.width, 300.0);
}

#[test]
fn a_layout_that_does_not_parse_opens_an_error() {
    let mut b = board();
    let effects = b.layout_loaded(LoadOutcome::ParseFailed(String::from("bad json")), &vec![], &vec![]);
    match effects.as_slice() {
        [Effect::OpenWindow { window: AppWindow::ErrorPopup(p), .. }] => {
            assert_eq!(p.error.text(), "Error parsing keyboard layout");
            assert_eq!(p.error.info(), "bad json");
        }
        _ => panic!("expected an error window"),
    }
}

#[test]
fn loading_the_default_style_puts_it_in_place() {
    let mut b = loaded_board();
    let effects = b.load_style(0);
    assert!(matches!(
        effects.as_slice(),
        [Effect::RefreshBackgroundImage { category, file_name: None }, Effect::Redraw(Redraw::All)] if category == "kbd"
    ));
    assert_eq!(b.text_input.save_style_as_name, "Global Default");
    assert_eq!(b.text_input.default_loose_key_background_image, "loose.png");
    assert_eq!(b.text_input.default_pressed_key_background_image, "");
}

#[test]
fn loading_other_styles_reads_their_files() {
    let mut b = loaded_board();
    let effects = b.load_style(1);
    assert!(matches!(
        effects.as_slice(),
        [Effect::ReadStyle(StyleFile::Custom { category, layout, name })] if category == "kbd" && layout == "main" && name == "dark"
    ));
    assert_eq!(b.style_choice, 1);
    assert_eq!(b.settings.style, 1);
    let effects = b.load_style(2);
    assert!(matches!(effects.as_slice(), [Effect::ReadStyle(StyleFile::Global { name })] if name == "neon"));
    let effects = b.style_loaded(LoadOutcome::Loaded(style(Some("back.png"))));
    assert!(matches!(
        effects.as_slice(),
        [Effect::RefreshBackgroundImage { file_name: Some(f), .. }, Effect::Redraw(Redraw::All)] if f == "back.png"
    ));
    assert_eq!(b.text_input.save_style_as_name, "neon");
    assert_eq!(b.text_input.keyboard_background_image, "back.png");
}

#[test]
fn a_style_past_the_list_or_unreadable_opens_an_error() {
    let mut b = loaded_board();
    let effects = b.load_style(7);
    assert!(matches!(effects.as_slice(), [Effect::OpenWindow { window: AppWindow::ErrorPopup(p), .. }]
        if matches!(&p.error, NuhxBoardError::StyleOpen(t) if t == "Provided style index is out of bounds")));
    let effects = b.style_loaded(LoadOutcome::OpenFailed(String::from("missing")));
    assert!(matches!(effects.as_slice(), [Effect::OpenWindow { window: AppWindow::ErrorPopup(p), .. }]
        if p.error.text() == "Error opening keyboard style"));
}

#[test]
fn saving_writes_into_the_chosen_layout() {
    let mut b = loaded_board();
    b.load_style(1);
    b.style_commited = false;
    b.layout_commited = false;
    let effects = b.save_layout(None);
    assert!(matches!(
        effects.as_slice(),
        [Effect::WriteLayout(SaveTarget::InLayout { category, layout, file })] if category == "kbd" && layout == "main" && file == "keyboard.json"
    ));
    assert!(b.layout_commited);
    let effects = b.save_style(None);
    assert!(matches!(
        effects.as_slice(),
        [Effect::WriteStyle(SaveTarget::InLayout { file, .. })] if file == "dark.style"
    ));
    assert!(b.style_commited);
    let effects = b.save_style(Some(String::from("/tmp/x.style")));
    assert!(matches!(effects.as_slice(), [Effect::WriteStyle(SaveTarget::Path(p))] if p == "/tmp/x.style"));
}

#[test]
fn unsaved_changes_ask_before_loading_or_closing() {
    let mut b = loaded_board();
    b.layout_commited = false;
    let effects = b.open(AppWindow::LoadKeyboard(LoadKeyboard));
    assert!(matches!(
        effects.as_slice(),
        [Effect::OpenWindow { window: AppWindow::UnsavedChangesPopup(UnsavedChangesPopup(Action::LoadKeyboard)), .. }]
    ));
    let effects = b.close_requested();
    assert!(matches!(
        effects.as_slice(),
        [Effect::OpenWindow { window: AppWindow::UnsavedChangesPopup(UnsavedChangesPopup(Action::Exit)), .. }]
    ));
    let effects = b.commit(Action::LoadKeyboard);
    assert!(b.layout_commited && b.style_commited);
    assert!(matches!(
        effects.as_slice(),
        [Effect::ListCategories, Effect::OpenWindow { window: AppWindow::LoadKeyboard(_), .. }, Effect::CloseWindows(ids)] if ids.len() == 1
    ));
}

#[test]
fn closing_with_everything_saved_stores_settings_and_closes_all() {
    let mut b = board();
    let effects = b.close_requested();
    match effects.as_slice() {
        [Effect::StoreSettings, Effect::CloseWindows(ids)] => assert_eq!(ids, &vec![0u64]),
        _ => panic!("expected settings stored and windows closed"),
    }
    let effects = b.closed(0);
    assert!(matches!(effects.as_slice(), [Effect::ExitApp]));
}

#[test]
fn saving_the_style_as_starts_from_whether_it_is_global() {
    let mut b = loaded_board();
    b.load_style(2);
    b.open(AppWindow::SaveStyleAs(SaveStyleAs));
    assert!(b.save_style_as_global);
    b.load_style(1);
    b.open(AppWindow::SaveStyleAs(SaveStyleAs));
    assert!(!b.save_style_as_global);
}

#[test]
fn a_new_board_loads_the_remembered_keyboard() {
    let mut settings = Settings::defaults(50.0, &vec![]);
    settings.category = String::from("kbd");
    settings.layout_index = 2;
    settings.style = 1;
    let (b, effects) = NuhxBoard::new(
        settings,
        Some(String::from("broken")),
        style(None),
        200.0,
        200.0,
        SerializablePoint { x: 0.0, y: 0.0 },
    );
    assert_eq!(effects.len(), 5);
    assert!(matches!(&effects[0], Effect::OpenWindow { id: 0, window: AppWindow::Main(_) }));
    assert!(matches!(&effects[2], Effect::Deliver(nuhxboard::events::Message::LoadLayout(2))));
    assert!(matches!(&effects[3], Effect::Deliver(nuhxboard::events::Message::LoadStyle(1))));
    assert!(matches!(&effects[4], Effect::OpenWindow { id: 1, window: AppWindow::ErrorPopup(_) }));
    assert_eq!(b.layout_choice, Some(2));
}
