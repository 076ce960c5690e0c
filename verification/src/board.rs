use vstd::prelude::*;
use std::collections::HashMap;
use crate::choices::{StyleChoice, StyleChoiceView};
use crate::error::{ErrorView, NuhxBoardError};
use crate::events::{Change, Effect, EffectView, Message, Redraw, effect_views};
use crate::history::{EditHistory, HistoryView};
use crate::inputs::{
    NumberInput, NumberInputType, NumberInputView, SelectionLists, SelectionType, SelectionsView,
    TextInput, TextInputType, TextInputView,
};
use crate::layout::{ElementView, Layout, SerializablePoint};
use crate::options::string_views;
use crate::pickers::{ColorPicker, ColorPickers, PickersView};
use crate::settings::{Capitalization, Setting, Settings, SettingsView, spec_apply_setting};
use crate::style::{Style, StyleView, spec_without_element_styles};
use crate::windows::{AppWindow, ErrorPopup, Main, WindowId, WindowManager, WindowsView};

verus! {

broadcast use vstd::std_specs::hash::group_hash_axioms;

/// The state of the application: the loaded layout and style, what is pressed, the editor's
/// state, and the open windows. `F` is the scalar type of coordinates, sizes and colors (a
/// float in the application); the board stores and moves such values, never computes with
/// them.
pub struct NuhxBoard<F> {
    pub windows: WindowManager,
    pub main_window: u64,
    pub layout: Layout<F>,
    pub style: Style<F>,
    /// The built-in style, used when no style file is chosen.
    pub default_style: Style<F>,
    /// Pressed keys, by key code, with the time they were pressed at (milliseconds).
    pub pressed_keys: HashMap<u32, u64>,
    /// Pressed mouse buttons, by button code, with the time they were pressed at.
    pub pressed_mouse_buttons: HashMap<u32, u64>,
    /// Scroll directions shown as pressed, with the number of releases still to come.
    pub pressed_scroll_buttons: HashMap<u32, u32>,
    /// Whether key texts are shown capitalized.
    pub caps: bool,
    /// The state of caps lock as seen by the board.
    pub true_caps: bool,
    pub layout_choice: Option<usize>,
    pub style_choice: usize,
    pub layout_options: Vec<String>,
    pub keyboard_category_options: Vec<String>,
    pub style_options: Vec<StyleChoice>,
    pub settings: Settings<F>,
    pub edit_mode: bool,
    pub history: EditHistory<Change<F>>,
    pub save_style_as_global: bool,
    pub color_pickers: ColorPickers,
    pub text_input: TextInput,
    pub number_input: NumberInput,
    pub selections: SelectionLists,
    /// The element under the cursor in edit mode, by index.
    pub hovered_element: Option<usize>,
    /// The elements waiting for the next key or button to take its code, by index.
    pub detecting: Vec<usize>,
    pub right_click_pos: SerializablePoint<F>,
    pub mouse_pos: SerializablePoint<F>,
    pub layout_commited: bool,
    pub style_commited: bool,
}

/// Model of the board.
pub struct BoardView<F> {
    pub windows: WindowsView,
    pub main_window: u64,
    pub version: Option<u8>,
    pub width: F,
    pub height: F,
    pub elements: Seq<ElementView<F>>,
    pub style: StyleView<F>,
    pub default_style: StyleView<F>,
    pub pressed_keys: Map<u32, u64>,
    pub pressed_mouse_buttons: Map<u32, u64>,
    pub pressed_scroll_buttons: Map<u32, u32>,
    pub caps: bool,
    pub true_caps: bool,
    pub layout_choice: Option<usize>,
    pub style_choice: usize,
    pub layout_options: Seq<Seq<char>>,
    pub keyboard_category_options: Seq<Seq<char>>,
    pub style_options: Seq<StyleChoiceView>,
    pub settings: SettingsView<F>,
    pub edit_mode: bool,
    pub history: HistoryView<Change<F>>,
    pub save_style_as_global: bool,
    pub color_pickers: PickersView,
    pub text_input: TextInputView,
    pub number_input: NumberInputView,
    pub selections: SelectionsView,
    pub hovered_element: Option<usize>,
    pub detecting: Seq<usize>,
    pub right_click_pos: SerializablePoint<F>,
    pub mouse_pos: SerializablePoint<F>,
    pub layout_commited: bool,
    pub style_commited: bool,
}

impl<F> View for NuhxBoard<F> {
    type V = BoardView<F>;

    open spec fn view(&self) -> BoardView<F> {
        BoardView {
            windows: self.windows@,
            main_window: self.main_window,
            version: self.layout.version,
            width: self.layout.width,
            height: self.layout.height,
            elements: self.layout@,
            style: self.style@,
            default_style: self.default_style@,
            pressed_keys: self.pressed_keys@,
            pressed_mouse_buttons: self.pressed_mouse_buttons@,
            pressed_scroll_buttons: self.pressed_scroll_buttons@,
            caps: self.caps,
            true_caps: self.true_caps,
            layout_choice: self.layout_choice,
            style_choice: self.style_choice,
            layout_options: string_views(self.layout_options@),
            keyboard_category_options: string_views(self.keyboard_category_options@),
            style_options: self.style_options@.map_values(|c: StyleChoice| c@),
            settings: self.settings@,
            edit_mode: self.edit_mode,
            history: self.history@,
            save_style_as_global: self.save_style_as_global,
            color_pickers: self.color_pickers@,
            text_input: self.text_input@,
            number_input: self.number_input@,
            selections: self.selections@,
            hovered_element: self.hovered_element,
            detecting: self.detecting@,
            right_click_pos: self.right_click_pos,
            mouse_pos: self.mouse_pos,
            layout_commited: self.layout_commited,
            style_commited: self.style_commited,
        }
    }
}

impl<F> BoardView<F> {
    /// The parts that every operation keeps consistent: the window manager and the undo
    /// history are well formed, and a scroll direction shown as pressed has a release to come.
    pub open spec fn wf(self) -> bool {
        &&& self.windows.wf()
        &&& self.history.wf()
        &&& scroll_counts_positive(self.pressed_scroll_buttons)
    }

    /// Another window can be given an id.
    pub open spec fn can_open_window(self) -> bool {
        self.windows.next_id < u64::MAX
    }

    /// Whether the layout or the style has changes that are not saved.
    pub open spec fn has_unsaved_changes(self) -> bool {
        !self.layout_commited || !self.style_commited
    }

    /// The board after opening `window`: it is registered under the next id.
    pub open spec fn opened(self, window: WindowId) -> BoardView<F> {
        BoardView {
            windows: WindowsView {
                windows: self.windows.windows.insert(self.windows.next_id, window),
                next_id: (self.windows.next_id + 1) as u64,
            },
            ..self
        }
    }
}

/// Every scroll direction in the map has a release to come.
pub open spec fn scroll_counts_positive(m: Map<u32, u32>) -> bool {
    forall|b: u32| #[trigger] m.contains_key(b) ==> m[b] > 0
}

/// Whether key texts are capitalized for a capitalization setting, given the caps lock state.
pub open spec fn caps_for(capitalization: Capitalization, true_caps: bool) -> bool {
    match capitalization {
        Capitalization::Lower => false,
        Capitalization::Upper => true,
        Capitalization::Follow => true_caps,
    }
}

/// Effects: opening one window.
pub open spec fn opens<F>(id: u64, window: WindowId) -> Seq<EffectView<F>> {
    seq![EffectView::OpenWindow { id, window }]
}

/// The board and effects after a settings change: the setting applies, and a change of
/// capitalization sets whether texts are capitalized.
pub open spec fn change_setting_post<F>(
    old: BoardView<F>,
    setting: Setting<F>,
    new: BoardView<F>,
    effects: Seq<EffectView<F>>,
) -> bool {
    &&& new == BoardView {
        settings: spec_apply_setting(old.settings, setting),
        caps: match setting {
            Setting::Capitalization(c) => caps_for(c, old.true_caps),
            _ => old.caps,
        },
        ..old
    }
    &&& effects == Seq::<EffectView<F>>::empty()
}

/// The board and effects after a scroll release arrives for `button`: the count of queued
/// releases goes down by one, and the last one stops showing the direction as pressed.
pub open spec fn release_scroll_post<F>(
    old: BoardView<F>,
    button: u32,
    new: BoardView<F>,
    effects: Seq<EffectView<F>>,
) -> bool {
    if !old.pressed_scroll_buttons.contains_key(button) {
        new == old && effects == Seq::<EffectView<F>>::empty()
    } else if old.pressed_scroll_buttons[button] == 1 {
        &&& new == BoardView {
            pressed_scroll_buttons: old.pressed_scroll_buttons.remove(button),
            ..old
        }
        &&& effects == seq![EffectView::<F>::Redraw(Redraw::ScrollButton(button))]
    } else {
        &&& new == BoardView {
            pressed_scroll_buttons: old.pressed_scroll_buttons.insert(
                button,
                (old.pressed_scroll_buttons[button] - 1) as u32,
            ),
            ..old
        }
        &&& effects == Seq::<EffectView<F>>::empty()
    }
}

/// The board and effects after the hovered element changes: both the element that was
/// hovered and the new one are drawn again.
pub open spec fn update_hovered_post<F>(
    old: BoardView<F>,
    hovered: Option<usize>,
    new: BoardView<F>,
    effects: Seq<EffectView<F>>,
) -> bool {
    &&& new == BoardView { hovered_element: hovered, ..old }
    &&& effects == redraw_if_some::<F>(old.hovered_element) + redraw_if_some::<F>(hovered)
}

/// Effects: drawing again the element at an index, if there is one.
pub open spec fn redraw_if_some<F>(index: Option<usize>) -> Seq<EffectView<F>> {
    match index {
        Some(i) => seq![EffectView::<F>::Redraw(Redraw::Element(i))],
        None => Seq::empty(),
    }
}

/// The board after recording a layout edit: it joins the history and the layout has unsaved
/// changes.
pub open spec fn push_change_post<F>(old: BoardView<F>, change: Change<F>, new: BoardView<F>) -> bool {
    new == BoardView { history: old.history.push(change), layout_commited: false, ..old }
}

/// The board and effects after an undo: the history steps back and the change is reverted.
pub open spec fn undo_post<F>(
    old: BoardView<F>,
    new: BoardView<F>,
    effects: Seq<EffectView<F>>,
) -> bool {
    &&& new == BoardView { history: old.history.undo().0, ..old }
    &&& effects == match old.history.undo().1 {
        Some(change) => seq![EffectView::ApplyChange { change, undo: true }],
        None => Seq::<EffectView<F>>::empty(),
    }
}

/// The board and effects after a redo: the history steps forward and the change is made again.
pub open spec fn redo_post<F>(
    old: BoardView<F>,
    new: BoardView<F>,
    effects: Seq<EffectView<F>>,
) -> bool {
    &&& new == BoardView { history: old.history.redo().0, ..old }
    &&& effects == match old.history.redo().1 {
        Some(change) => seq![EffectView::ApplyChange { change, undo: false }],
        None => Seq::<EffectView<F>>::empty(),
    }
}

/// The board and effects after a window was closed: it is forgotten, and when it was the last
/// one the application exits.
pub open spec fn closed_post<F>(
    old: BoardView<F>,
    id: u64,
    new: BoardView<F>,
    effects: Seq<EffectView<F>>,
) -> bool {
    &&& new == BoardView {
        windows: WindowsView { windows: old.windows.windows.remove(id), ..old.windows },
        ..old
    }
    &&& effects == if new.windows.windows.is_empty() {
        seq![EffectView::<F>::ExitApp]
    } else {
        Seq::empty()
    }
}

impl<F: Copy> NuhxBoard<F> {
    /// A board with the given settings and built-in style and an empty layout of the given
    /// size, with the main window open. When the settings name a category, its layout and
    /// style are loaded next; when the settings could not be read (`settings_error`), an error
    /// window is opened.
    pub fn new(
        settings: Settings<F>,
        settings_error: Option<String>,
        default_style: Style<F>,
        width: F,
        height: F,
        origin: SerializablePoint<F>,
    ) -> (r: (NuhxBoard<F>, Vec<Effect<F>>))
        ensures
            ({
                let (board, effects) = r;
                let v = board@;
                &&& v.wf()
                &&& v.main_window == 0
                &&& v.settings == settings@
                &&& v.width == width && v.height == height && v.elements.len() == 0
                &&& v.version is None
                &&& v.style == spec_without_element_styles(default_style@)
                &&& v.default_style == default_style@
                &&& v.caps == caps_for(settings.capitalization, false)
                &&& !v.true_caps
                &&& v.layout_choice == Some(settings.layout_index)
                &&& v.style_choice == settings.style
                &&& v.pressed_keys.is_empty() && v.pressed_mouse_buttons.is_empty()
                &&& v.pressed_scroll_buttons.is_empty()
                &&& v.layout_options.len() == 0 && v.keyboard_category_options.len() == 0
                &&& v.style_options.len() == 0
                &&& !v.edit_mode
                &&& v.history.changes.len() == 0
                &&& v.hovered_element is None
                &&& v.detecting.len() == 0
                &&& v.right_click_pos == origin && v.mouse_pos == origin
                &&& v.layout_commited && v.style_commited
                &&& forall|p: ColorPicker| !#[trigger] v.color_pickers.state(p)
                &&& v.windows.windows == (match settings_error {
                    Some(e) => map![0u64 => WindowId::Main, 1u64 => WindowId::ErrorPopup(
                        ErrorView::SettingsParse(e@),
                    )],
                    None => map![0u64 => WindowId::Main],
                })
                &&& v.windows.next_id == (if settings_error is Some {
                    2u64
                } else {
                    1u64
                })
                &&& effect_views(effects@)[0] == EffectView::<F>::OpenWindow {
                    id: 0,
                    window: WindowId::Main,
                }
                &&& settings.category@.len() > 0 ==> {
                    &&& effects@[1] matches Effect::Deliver(Message::ChangeKeyboardCategory(c))
                        && c@ == settings.category@
                    &&& effect_views(effects@)[2] == EffectView::Deliver(
                        Message::<F>::LoadLayout(settings.layout_index),
                    )
                    &&& effect_views(effects@)[3] == EffectView::Deliver(
                        Message::<F>::LoadStyle(settings.style),
                    )
                }
                &&& effects@.len() == (if settings.category@.len() > 0 {
                    4int
                } else {
                    1int
                }) + (if settings_error is Some {
                    1int
                } else {
                    0int
                })
                &&& settings_error matches Some(e) ==> effect_views(effects@).last()
                    == EffectView::<F>::OpenWindow {
                    id: 1,
                    window: WindowId::ErrorPopup(ErrorView::SettingsParse(e@)),
                }
            }),
    {
        let caps = match settings.capitalization {
            Capitalization::Upper => true,
            Capitalization::Lower => false,
            Capitalization::Follow => false,
        };
        let mut windows = WindowManager::new();
        let main_window = windows.open(AppWindow::Main(Main));
        let layout_index = settings.layout_index;
        let style_index = settings.style;
        let category = settings.category.clone();
        let style = default_style.without_element_styles();
        let mut board = NuhxBoard {
            windows,
            main_window,
            layout: Layout { version: None, width, height, elements: Vec::new() },
            style,
            default_style,
            pressed_keys: HashMap::new(),
            pressed_mouse_buttons: HashMap::new(),
            pressed_scroll_buttons: HashMap::new(),
            caps,
            true_caps: false,
            layout_choice: Some(layout_index),
            style_choice: style_index,
            layout_options: Vec::new(),
            keyboard_category_options: Vec::new(),
            style_options: Vec::new(),
            settings,
            edit_mode: false,
            history: EditHistory::new(),
            save_style_as_global: false,
            color_pickers: ColorPickers::new(),
            text_input: TextInput::new(),
            number_input: NumberInput::new(),
            selections: SelectionLists::new(),
            hovered_element: None,
            detecting: Vec::new(),
            right_click_pos: origin,
            mouse_pos: origin,
            layout_commited: true,
            style_commited: true,
        };
        let mut effects: Vec<Effect<F>> = Vec::new();
        effects.push(Effect::OpenWindow { id: main_window, window: AppWindow::Main(Main) });
        let ghost settings_category_len = category@.len();
        if category.as_str().unicode_len() > 0 {
            effects.push(Effect::Deliver(Message::ChangeKeyboardCategory(category)));
            effects.push(Effect::Deliver(Message::LoadLayout(layout_index)));
            effects.push(Effect::Deliver(Message::LoadStyle(style_index)));
            assert(effects@.len() == 4);
        }
        assert(effects@.len() == if settings_category_len > 0 { 4int } else { 1int });
        match settings_error {
            Some(e) => {
                let mut more = board.error(NuhxBoardError::SettingsParse(e));
                let ghost prev = effects@;
                let ghost added = more@;
                effects.append(&mut more);
                assert(effect_views(effects@) =~= effect_views(prev) + effect_views(added));
            },
            None => {},
        }
        proof {
            assert(effects@.len() == (if settings_category_len > 0 {
                4int
            } else {
                1int
            }) + (if settings_error is Some {
                1int
            } else {
                0int
            }));
            assert(board@.pressed_keys =~= Map::<u32, u64>::empty());
            assert(board@.pressed_mouse_buttons =~= Map::<u32, u64>::empty());
            assert(board@.pressed_scroll_buttons =~= Map::<u32, u32>::empty());
        }
        (board, effects)
    }

    /// Opens an error window.
    pub fn error(&mut self, error: NuhxBoardError) -> (effects: Vec<Effect<F>>)
        requires
            old(self)@.wf(),
            old(self)@.can_open_window(),
        ensures
            final(self)@ == old(self)@.opened(WindowId::ErrorPopup(error@)),
            effect_views(effects@) == opens::<F>(
                old(self)@.windows.next_id,
                WindowId::ErrorPopup(error@),
            ),
            final(self)@.wf(),
    {
        let ghost e = error@;
        let window = AppWindow::ErrorPopup(ErrorPopup { error });
        let dup = window.duplicate();
        let id = self.windows.open(window);
        let mut effects = Vec::new();
        effects.push(Effect::OpenWindow { id, window: dup });
        proof {
            assert(effect_views(effects@) =~= opens::<F>(id, WindowId::ErrorPopup(e)));
        }
        effects
    }

    /// Applies a change made in the settings window (see `change_setting_post`).
    pub fn change_setting(&mut self, setting: Setting<F>) -> (effects: Vec<Effect<F>>)
        ensures
            change_setting_post(old(self)@, setting, final(self)@, effect_views(effects@)),
    {
        match setting {
            Setting::Capitalization(c) => {
                self.caps = match c {
                    Capitalization::Lower => false,
                    Capitalization::Upper => true,
                    Capitalization::Follow => self.true_caps,
                };
            },
            _ => {},
        }
        self.settings.apply(setting);
        let effects = Vec::new();
        proof {
            assert(effect_views(effects@) =~= Seq::<EffectView<F>>::empty());
        }
        effects
    }

    /// Forgets every pressed key.
    pub fn clear_pressed_keys(&mut self) -> (effects: Vec<Effect<F>>)
        ensures
            final(self)@ == (BoardView { pressed_keys: Map::empty(), ..old(self)@ }),
            effect_views(effects@) == seq![EffectView::<F>::Redraw(Redraw::All)],
    {
        self.pressed_keys.clear();
        let mut effects = Vec::new();
        effects.push(Effect::Redraw(Redraw::All));
        proof {
            assert(self@.pressed_keys =~= Map::<u32, u64>::empty());
            assert(effect_views(effects@) =~= seq![EffectView::<F>::Redraw(Redraw::All)]);
        }
        effects
    }

    /// Enters or leaves edit mode.
    pub fn toggle_edit_mode(&mut self)
        ensures
            final(self)@ == (BoardView { edit_mode: !old(self)@.edit_mode, ..old(self)@ }),
    {
        self.edit_mode = !self.edit_mode;
    }

    /// Sets the layout's height and resizes the main window to the layout.
    pub fn set_height(&mut self, height: F) -> (effects: Vec<Effect<F>>)
        ensures
            final(self)@ == (BoardView { height, ..old(self)@ }),
            effect_views(effects@) == seq![
                EffectView::ResizeMainWindow { width: old(self)@.width, height },
            ],
    {
        self.layout.height = height;
        let mut effects = Vec::new();
        effects.push(Effect::ResizeMainWindow { width: self.layout.width, height });
        proof {
            assert(effect_views(effects@) =~= seq![
                EffectView::ResizeMainWindow { width: self.layout.width, height },
            ]);
        }
        effects
    }

    /// Sets the layout's width and resizes the main window to the layout.
    pub fn set_width(&mut self, width: F) -> (effects: Vec<Effect<F>>)
        ensures
            final(self)@ == (BoardView { width, ..old(self)@ }),
            effect_views(effects@) == seq![
                EffectView::ResizeMainWindow { width, height: old(self)@.height },
            ],
    {
        self.layout.width = width;
        let mut effects = Vec::new();
        effects.push(Effect::ResizeMainWindow { width, height: self.layout.height });
        proof {
            assert(effect_views(effects@) =~= seq![
                EffectView::ResizeMainWindow { width, height: self.layout.height },
            ]);
        }
        effects
    }

    /// Records a layout edit (see `push_change_post`).
    pub fn push_change(&mut self, change: Change<F>)
        requires
            old(self)@.wf(),
        ensures
            push_change_post(old(self)@, change, final(self)@),
            final(self)@.wf(),
    {
        self.history.push(change);
        self.layout_commited = false;
    }

    /// Undoes the newest edit not yet undone (see `undo_post`).
    pub fn undo(&mut self) -> (effects: Vec<Effect<F>>)
        requires
            old(self)@.wf(),
        ensures
            undo_post(old(self)@, final(self)@, effect_views(effects@)),
            final(self)@.wf(),
    {
        let mut effects = Vec::new();
        match self.history.undo() {
            Some(change) => effects.push(Effect::ApplyChange { change, undo: true }),
            None => {},
        }
        proof {
            assert(effect_views(effects@) =~= match old(self)@.history.undo().1 {
                Some(change) => seq![EffectView::ApplyChange { change, undo: true }],
                None => Seq::<EffectView<F>>::empty(),
            });
        }
        effects
    }

    /// Redoes the oldest undone edit (see `redo_post`).
    pub fn redo(&mut self) -> (effects: Vec<Effect<F>>)
        requires
            old(self)@.wf(),
        ensures
            redo_post(old(self)@, final(self)@, effect_views(effects@)),
            final(self)@.wf(),
    {
        let mut effects = Vec::new();
        match self.history.redo() {
            Some(change) => effects.push(Effect::ApplyChange { change, undo: false }),
            None => {},
        }
        proof {
            assert(effect_views(effects@) =~= match old(self)@.history.redo().1 {
                Some(change) => seq![EffectView::ApplyChange { change, undo: false }],
                None => Seq::<EffectView<F>>::empty(),
            });
        }
        effects
    }

    /// Records the text typed in a text input.
    pub fn change_text_input(&mut self, input: TextInputType, value: String)
        ensures
            final(self)@ == (BoardView {
                text_input: old(self)@.text_input.set(input, value@),
                ..old(self)@
            }),
    {
        self.text_input.set(input, value);
    }

    /// Records a number typed in a number input.
    pub fn change_number_input(&mut self, input: NumberInputType)
        ensures
            final(self)@ == (BoardView {
                number_input: old(self)@.number_input.set(input),
                ..old(self)@
            }),
    {
        self.number_input.set(input);
    }

    /// Selects an entry of one of an element's lists.
    pub fn change_selection(&mut self, element: usize, list: SelectionType, selection: usize)
        ensures
            final(self)@ == (BoardView {
                selections: old(self)@.selections.select(element, list, selection),
                ..old(self)@
            }),
    {
        self.selections.select(element, list, selection);
    }

    /// Flips whether the style is saved as a global style.
    pub fn toggle_save_style_as_global(&mut self)
        ensures
            final(self)@ == (BoardView {
                save_style_as_global: !old(self)@.save_style_as_global,
                ..old(self)@
            }),
    {
        self.save_style_as_global = !self.save_style_as_global;
    }

    /// Opens or closes a color picker.
    pub fn toggle_color_picker(&mut self, picker: ColorPicker)
        ensures
            final(self)@ == (BoardView {
                color_pickers: old(self)@.color_pickers.set(
                    picker,
                    !old(self)@.color_pickers.state(picker),
                ),
                ..old(self)@
            }),
    {
        self.color_pickers.toggle(picker);
    }

    /// Makes the element at `element` wait for the next key or button, to take its code.
    pub fn start_detecting(&mut self, element: usize)
        ensures
            final(self)@ == (BoardView {
                detecting: old(self)@.detecting.push(element),
                ..old(self)@
            }),
    {
        self.detecting.push(element);
    }

    /// A scroll release arrives (see `release_scroll_post`).
    pub fn release_scroll(&mut self, button: u32) -> (effects: Vec<Effect<F>>)
        requires
            old(self)@.wf(),
        ensures
            release_scroll_post(old(self)@, button, final(self)@, effect_views(effects@)),
            final(self)@.wf(),
    {
        let mut effects = Vec::new();
        match self.pressed_scroll_buttons.get(&button) {
            None => {},
            Some(n) => {
                let n = *n;
                assert(old(self)@.pressed_scroll_buttons.contains_key(button));
                if n == 1 {
                    self.pressed_scroll_buttons.remove(&button);
                    effects.push(Effect::Redraw(Redraw::ScrollButton(button)));
                } else {
                    self.pressed_scroll_buttons.insert(button, n - 1);
                }
            },
        }
        proof {
            if old(self)@.pressed_scroll_buttons.contains_key(button) {
                if old(self)@.pressed_scroll_buttons[button] == 1 {
                    assert(effect_views(effects@) =~= seq![
                        EffectView::<F>::Redraw(Redraw::ScrollButton(button)),
                    ]);
                } else {
                    assert(effect_views(effects@) =~= Seq::<EffectView<F>>::empty());
                }
            } else {
                assert(effect_views(effects@) =~= Seq::<EffectView<F>>::empty());
            }
        }
        effects
    }

    /// The hovered element changes (see `update_hovered_post`).
    pub fn update_hovered_element(&mut self, hovered: Option<usize>) -> (effects: Vec<Effect<F>>)
        requires
            old(self)@.hovered_element matches Some(i) ==> i < old(self)@.elements.len(),
            hovered matches Some(i) ==> i < old(self)@.elements.len(),
        ensures
            update_hovered_post(old(self)@, hovered, final(self)@, effect_views(effects@)),
    {
        let mut effects = Vec::new();
        let ghost first = redraw_if_some::<F>(self.hovered_element);
        match self.hovered_element {
            Some(i) => effects.push(Effect::Redraw(Redraw::Element(i))),
            None => {},
        }
        assert(effect_views(effects@) =~= first);
        match hovered {
            Some(i) => {
                let ghost before = effects@;
                effects.push(Effect::Redraw(Redraw::Element(i)));
                assert(effect_views(effects@) =~= effect_views(before).push(
                    EffectView::Redraw(Redraw::Element(i)),
                ));
            },
            None => {},
        }
        assert(effect_views(effects@) =~= first + redraw_if_some::<F>(hovered));
        self.hovered_element = hovered;
        effects
    }

    /// A right click in a window: in the main window, it marks where new elements go.
    pub fn right_click(&mut self, window: u64)
        ensures
            final(self)@ == if window == old(self)@.main_window {
                BoardView { right_click_pos: old(self)@.mouse_pos, ..old(self)@ }
            } else {
                old(self)@
            },
    {
        if window == self.main_window {
            self.right_click_pos = self.mouse_pos;
        }
    }

    /// The cursor moved in a window: in the main window, its position is remembered.
    pub fn mouse_moved(&mut self, position: SerializablePoint<F>, window: u64)
        ensures
            final(self)@ == if window == old(self)@.main_window {
                BoardView { mouse_pos: position, ..old(self)@ }
            } else {
                old(self)@
            },
    {
        if window == self.main_window {
            self.mouse_pos = position;
        }
    }

    /// A window was closed (see `closed_post`).
    pub fn closed(&mut self, id: u64) -> (effects: Vec<Effect<F>>)
        requires
            old(self)@.wf(),
        ensures
            closed_post(old(self)@, id, final(self)@, effect_views(effects@)),
            final(self)@.wf(),
    {
        self.windows.was_closed(id);
        let mut effects = Vec::new();
        if self.windows.empty() {
            effects.push(Effect::ExitApp);
        }
        proof {
            assert(effect_views(effects@) =~= if self@.windows.windows.is_empty() {
                seq![EffectView::<F>::ExitApp]
            } else {
                Seq::empty()
            });
        }
        effects
    }

    /// Closes every window that is `window`.
    pub fn close_all_of(&self, window: &AppWindow) -> (effects: Vec<Effect<F>>)
        ensures
            effect_views(effects@) == seq![
                EffectView::<F>::CloseWindows(self@.windows.instances(window@)),
            ],
    {
        let ids = self.windows.close_all_of(window);
        let mut effects = Vec::new();
        effects.push(Effect::CloseWindows(ids));
        proof {
            assert(effect_views(effects@) =~= seq![
                EffectView::<F>::CloseWindows(self@.windows.instances(window@)),
            ]);
        }
        effects
    }
}

} // verus!
