use vstd::prelude::*;
use crate::inputs::{NumberInputType, SelectionType, TextInputType};
use crate::layout::{ElementProperty, SerializablePoint};
use crate::mouse::MouseButton;
use crate::options::opt_text;
use crate::pickers::ColorPicker;
use crate::popups::Action;
use crate::settings::Setting;
use crate::style::{FontStyle, NohRgb};
use crate::windows::{AppWindow, WindowId};

verus! {

/// A key as the input listener reports it: its Windows key code if it has one, whether it is
/// caps lock, and its name (shown when the key is unknown).
pub struct KeyInput {
    pub code: Option<u32>,
    pub caps_lock: bool,
    pub name: String,
}

/// Model of a key.
pub struct KeyInputView {
    pub code: Option<u32>,
    pub caps_lock: bool,
    pub name: Seq<char>,
}

impl View for KeyInput {
    type V = KeyInputView;

    open spec fn view(&self) -> KeyInputView {
        KeyInputView { code: self.code, caps_lock: self.caps_lock, name: self.name@ }
    }
}

impl KeyInput {
    /// A copy of the key.
    pub fn duplicate(&self) -> (k: KeyInput)
        ensures
            k@ == self@,
    {
        KeyInput { code: self.code, caps_lock: self.caps_lock, name: self.name.clone() }
    }
}

/// An input event that the board shows.
pub enum InputEvent {
    KeyPress(KeyInput),
    KeyRelease(KeyInput),
    ButtonPress(MouseButton),
    ButtonRelease(MouseButton),
    Wheel { delta_x: i64, delta_y: i64 },
}

/// Model of an input event.
pub enum InputEventView {
    KeyPress(KeyInputView),
    KeyRelease(KeyInputView),
    ButtonPress(MouseButton),
    ButtonRelease(MouseButton),
    Wheel { delta_x: i64, delta_y: i64 },
}

impl View for InputEvent {
    type V = InputEventView;

    open spec fn view(&self) -> InputEventView {
        match self {
            InputEvent::KeyPress(k) => InputEventView::KeyPress(k@),
            InputEvent::KeyRelease(k) => InputEventView::KeyRelease(k@),
            InputEvent::ButtonPress(b) => InputEventView::ButtonPress(*b),
            InputEvent::ButtonRelease(b) => InputEventView::ButtonRelease(*b),
            InputEvent::Wheel { delta_x, delta_y } => InputEventView::Wheel {
                delta_x: *delta_x,
                delta_y: *delta_y,
            },
        }
    }
}

/// An edit of the layout made by dragging, recorded for undo. `F` is the coordinate type.
#[derive(PartialEq, Eq, Structural, Clone, Copy, Debug)]
pub enum Change<F> {
    MoveElement { index: usize, delta: SerializablePoint<F>, move_text: bool },
    MoveFace { index: usize, face: usize, delta: SerializablePoint<F> },
    MoveVertex { index: usize, vertex: usize, delta: SerializablePoint<F> },
}

/// What has to be drawn again.
#[derive(PartialEq, Eq, Structural, Clone, Copy, Debug)]
pub enum Redraw {
    All,
    /// The element at an index.
    Element(usize),
    /// The element with an id.
    Id(u32),
    /// The keyboard keys tracking a key code.
    KeyCode(u32),
    /// The mouse keys tracking a button.
    MouseButton(u32),
    /// The mouse scrolls tracking a direction.
    ScrollButton(u32),
    MouseSpeedIndicators,
}

/// A change made in the style windows.
#[derive(PartialEq, Eq, Structural, Clone, Copy, Debug)]
pub enum StyleSetting {
    DefaultMouseSpeedIndicatorOutlineWidth(u32),
    DefaultLooseKeyFontFamily,
    DefaultLooseKeyShowOutline,
    DefaultLooseKeyOutlineWidth(u32),
    DefaultLooseKeyBackgroundImage,
    DefaultPressedKeyFontFamily,
    DefaultPressedKeyShowOutline,
    DefaultPressedKeyOutlineWidth(u32),
    DefaultPressedKeyBackgroundImage,
    KeyboardBackgroundImage,
    LooseKeyFontFamily(u32),
    LooseKeyShowOutline(u32),
    LooseKeyOutlineWidth { id: u32, width: u32 },
    LooseKeyBackgroundImage(u32),
    LooseKeyFontStyle { id: u32, style: FontStyle },
    PressedKeyFontFamily(u32),
    PressedKeyShowOutline(u32),
    PressedKeyOutlineWidth { id: u32, width: u32 },
    PressedKeyBackgroundImage(u32),
    PressedKeyFontStyle { id: u32, style: FontStyle },
    MouseSpeedIndicatorOutlineWidth { id: u32, width: u32 },
}

/// What the board is asked to do. `F` is the coordinate and color scalar type.
pub enum Message<F> {
    /// An input event, with the time it is handled at in milliseconds.
    Listener(InputEvent, u64),
    /// Does nothing.
    Noop,
    ReleaseScroll(u32),
    ChangeKeyboardCategory(String),
    LoadLayout(usize),
    LoadStyle(usize),
    ChangeSetting(Setting<F>),
    ClearPressedKeys,
    ToggleEditMode,
    SaveLayout(Option<String>),
    SaveStyle(Option<String>),
    SetHeight(F),
    SetWidth(F),
    PushChange(Change<F>),
    Undo,
    Redo,
    ChangeTextInput(TextInputType, String),
    ChangeStyle(StyleSetting),
    ToggleSaveStyleAsGlobal,
    Open(AppWindow),
    CloseAllOf(AppWindow),
    Exit,
    Closed(u64),
    CloseRequested,
    ChangeColor(ColorPicker, NohRgb<F>),
    ToggleColorPicker(ColorPicker),
    UpdateHoveredElement(Option<usize>),
    ChangeElement(usize, ElementProperty<F>),
    ChangeNumberInput(NumberInputType),
    ChangeSelection(usize, SelectionType, usize),
    SwapBoundaries(usize, usize, usize),
    /// Turns an element into the rectangle with the given corners.
    MakeRectangle(usize, Vec<SerializablePoint<F>>),
    StartDetecting(usize),
    ClearCache(usize),
    ClearAllCaches,
    /// Adds a keyboard key with the given outline at the last right click.
    AddKeyboardKey(Vec<SerializablePoint<F>>),
    AddMouseKey(Vec<SerializablePoint<F>>),
    AddMouseScroll(Vec<SerializablePoint<F>>),
    /// Adds a mouse speed indicator of the given radius at the last right click.
    AddMouseSpeedIndicator(F),
    RightClick(u64),
    MouseMoved { position: SerializablePoint<F>, window: u64 },
    RemoveElement,
    Commit(Action),
    CancelDiscard(Action),
}

/// A style file to read.
pub enum StyleFile {
    /// `global/{name}.style`
    Global { name: String },
    /// `{category}/{layout}/{name}.style`
    Custom { category: String, layout: String, name: String },
}

/// Model of a style file.
pub enum StyleFileView {
    Global { name: Seq<char> },
    Custom { category: Seq<char>, layout: Seq<char>, name: Seq<char> },
}

impl View for StyleFile {
    type V = StyleFileView;

    open spec fn view(&self) -> StyleFileView {
        match self {
            StyleFile::Global { name } => StyleFileView::Global { name: name@ },
            StyleFile::Custom { category, layout, name } => StyleFileView::Custom {
                category: category@,
                layout: layout@,
                name: name@,
            },
        }
    }
}

/// Where to write a file: a path the user gave, or a file in a layout's directory of the
/// keyboards directory.
pub enum SaveTarget {
    Path(String),
    /// `{category}/{layout}/{file}`
    InLayout { category: String, layout: String, file: String },
}

/// Model of a save target.
pub enum SaveTargetView {
    Path(Seq<char>),
    InLayout { category: Seq<char>, layout: Seq<char>, file: Seq<char> },
}

impl View for SaveTarget {
    type V = SaveTargetView;

    open spec fn view(&self) -> SaveTargetView {
        match self {
            SaveTarget::Path(p) => SaveTargetView::Path(p@),
            SaveTarget::InLayout { category, layout, file } => SaveTargetView::InLayout {
                category: category@,
                layout: layout@,
                file: file@,
            },
        }
    }
}

/// What came of reading and parsing a file: the file could not be opened, it could not be
/// parsed (each with the error's text), or its contents.
pub enum LoadOutcome<T> {
    OpenFailed(String),
    ParseFailed(String),
    Loaded(T),
}

/// The outside work the board asks for. The application performs each in order.
pub enum Effect<F> {
    /// Open a window for `window`, under the id the board gave it.
    OpenWindow { id: u64, window: AppWindow },
    CloseWindows(Vec<u64>),
    ResizeMainWindow { width: F, height: F },
    ExitApp,
    /// Write the settings to the configuration file.
    StoreSettings,
    Redraw(Redraw),
    /// Handle this message next.
    Deliver(Message<F>),
    /// Deliver `ReleaseScroll(button)` after `millis` milliseconds.
    ReleaseScrollAfter { millis: u64, button: u32 },
    /// Deliver this input event again after `millis` milliseconds.
    RedeliverAfter { millis: u64, event: InputEvent },
    /// List the keyboards directory and hand the entries to `categories_listed`.
    ListCategories,
    /// List the category's directory and hand the entries to `layouts_listed`.
    ListLayouts { category: String },
    /// Read `{category}/{name}/keyboard.json`, list that directory and the global styles
    /// directory, and hand the results to `layout_loaded`.
    ReadLayout { category: String, name: String },
    /// Read a style file and hand the result to `style_loaded`.
    ReadStyle(StyleFile),
    WriteLayout(SaveTarget),
    WriteStyle(SaveTarget),
    /// Render the category's background image `images/{file_name}` at the layout's size, or
    /// remove the rendered background if there is none.
    RefreshBackgroundImage { category: String, file_name: Option<String> },
    /// Make (`undo == false`) or revert (`undo == true`) a layout edit.
    ApplyChange { change: Change<F>, undo: bool },
}

/// Model of an effect.
pub enum EffectView<F> {
    OpenWindow { id: u64, window: WindowId },
    CloseWindows(Set<u64>),
    ResizeMainWindow { width: F, height: F },
    ExitApp,
    StoreSettings,
    Redraw(Redraw),
    Deliver(Message<F>),
    ReleaseScrollAfter { millis: u64, button: u32 },
    RedeliverAfter { millis: u64, event: InputEventView },
    ListCategories,
    ListLayouts { category: Seq<char> },
    ReadLayout { category: Seq<char>, name: Seq<char> },
    ReadStyle(StyleFileView),
    WriteLayout(SaveTargetView),
    WriteStyle(SaveTargetView),
    RefreshBackgroundImage { category: Seq<char>, file_name: Option<Seq<char>> },
    ApplyChange { change: Change<F>, undo: bool },
}

impl<F> View for Effect<F> {
    type V = EffectView<F>;

    open spec fn view(&self) -> EffectView<F> {
        match self {
            Effect::OpenWindow { id, window } => EffectView::OpenWindow {
                id: *id,
                window: window@,
            },
            Effect::CloseWindows(ids) => EffectView::CloseWindows(ids@.to_set()),
            Effect::ResizeMainWindow { width, height } => EffectView::ResizeMainWindow {
                width: *width,
                height: *height,
            },
            Effect::ExitApp => EffectView::ExitApp,
            Effect::StoreSettings => EffectView::StoreSettings,
            Effect::Redraw(r) => EffectView::Redraw(*r),
            Effect::Deliver(m) => EffectView::Deliver(*m),
            Effect::ReleaseScrollAfter { millis, button } => EffectView::ReleaseScrollAfter {
                millis: *millis,
                button: *button,
            },
            Effect::RedeliverAfter { millis, event } => EffectView::RedeliverAfter {
                millis: *millis,
                event: event@,
            },
            Effect::ListCategories => EffectView::ListCategories,
            Effect::ListLayouts { category } => EffectView::ListLayouts { category: category@ },
            Effect::ReadLayout { category, name } => EffectView::ReadLayout {
                category: category@,
                name: name@,
            },
            Effect::ReadStyle(f) => EffectView::ReadStyle(f@),
            Effect::WriteLayout(t) => EffectView::WriteLayout(t@),
            Effect::WriteStyle(t) => EffectView::WriteStyle(t@),
            Effect::RefreshBackgroundImage { category, file_name } => {
                EffectView::RefreshBackgroundImage {
                    category: category@,
                    file_name: opt_text(*file_name),
                }
            },
            Effect::ApplyChange { change, undo } => EffectView::ApplyChange {
                change: *change,
                undo: *undo,
            },
        }
    }
}

/// The models of a list of effects.
pub open spec fn effect_views<F>(effects: Seq<Effect<F>>) -> Seq<EffectView<F>> {
    effects.map_values(|e: Effect<F>| e@)
}

/// An editing shortcut.
#[derive(PartialEq, Eq, Structural, Clone, Copy, Debug)]
pub enum EditShortcut {
    Undo,
    Redo,
}

/// The shortcut a key press is: `z` with the command key on macOS, or with control, undoes;
/// with shift as well it redoes.
pub open spec fn spec_edit_shortcut(
    key_is_z: bool,
    macos: bool,
    command: bool,
    control: bool,
    shift: bool,
) -> Option<EditShortcut> {
    if key_is_z && ((macos && command) || control) {
        if shift {
            Some(EditShortcut::Redo)
        } else {
            Some(EditShortcut::Undo)
        }
    } else {
        None
    }
}

/// The shortcut a key press is, if any (see `spec_edit_shortcut`).
pub fn edit_shortcut(key_is_z: bool, macos: bool, command: bool, control: bool, shift: bool) -> (r:
    Option<EditShortcut>)
    ensures
        r == spec_edit_shortcut(key_is_z, macos, command, control, shift),
{
    if key_is_z && ((macos && command) || control) {
        if shift {
            Some(EditShortcut::Redo)
        } else {
            Some(EditShortcut::Undo)
        }
    } else {
        None
    }
}

} // verus!
