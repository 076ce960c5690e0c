use vstd::prelude::*;
use crate::board::{BoardView, NuhxBoard, opens};
use crate::choices::{StyleChoice, StyleChoiceView, spec_style_choice_display, spec_style_choice_name};
use crate::error::{ErrorView, NuhxBoardError};
use crate::events::{
    Effect, EffectView, LoadOutcome, SaveTargetView, StyleFile, StyleFileView, SaveTarget,
    effect_views,
};
use crate::inputs::TextInputType;
use crate::layout::Layout;
use crate::options::{
    opt_text,
    DirEntryInfo, category_options, dir_names_except, entry_views, layout_options,
    spec_style_options, style_files_have_stems, style_options, texts_sorted,
};
use crate::popups::Action;
use crate::settings::SettingsView;
use crate::style::{KeyState, Style, opt_string_view, spec_without_element_styles};
use crate::windows::{AppWindow, LoadKeyboard, UnsavedChangesPopup, WindowId};

verus! {

/// The text of the error shown for a layout index past the list of layouts.
pub open spec fn layout_index_error() -> Seq<char> {
    "Provided layout index is out of bounds"@
}

/// The text of the error shown for a style index past the list of styles.
pub open spec fn style_index_error() -> Seq<char> {
    "Provided style index is out of bounds"@
}

/// The layout that the style files of a custom style are in, if one is chosen.
pub open spec fn chosen_layout_valid<F>(b: BoardView<F>) -> bool {
    b.layout_choice matches Some(i) && i < b.layout_options.len()
}

/// The name of the chosen layout.
pub open spec fn chosen_layout_name<F>(b: BoardView<F>) -> Seq<char> {
    b.layout_options[b.layout_choice->0 as int]
}

/// The style file of a style choice that is not the default one.
pub open spec fn style_file_of<F>(b: BoardView<F>, choice: StyleChoiceView) -> StyleFileView {
    match choice {
        StyleChoiceView::Global(name) => StyleFileView::Global { name },
        StyleChoiceView::Custom(name) => StyleFileView::Custom {
            category: b.settings.category,
            layout: chosen_layout_name(b),
            name,
        },
        StyleChoiceView::Default => StyleFileView::Global { name: Seq::empty() },
    }
}

/// The board and effects once a style is in place: the background image is rendered anew,
/// the style's name and image names go into the text inputs, and everything is drawn again.
#[verifier::opaque]
pub open spec fn style_in_place<F>(b: BoardView<F>, choice: StyleChoiceView) -> (
    BoardView<F>,
    Seq<EffectView<F>>,
) {
    let t = b.text_input.set(TextInputType::SaveStyleAsName, spec_style_choice_name(choice)).set(
        TextInputType::KeyboardBackgroundImage,
        text_or_empty_opt(b.style.background_image),
    ).set(
        TextInputType::DefaultLooseKeyBackgroundImage,
        text_or_empty_opt(b.style.default_loose.background_image),
    ).set(
        TextInputType::DefaultPressedKeyBackgroundImage,
        text_or_empty_opt(b.style.default_pressed.background_image),
    );
    (
        BoardView { text_input: t, ..b },
        seq![
            EffectView::RefreshBackgroundImage {
                category: b.settings.category,
                file_name: b.style.background_image,
            },
            EffectView::Redraw(crate::events::Redraw::All),
        ],
    )
}

/// An optional text, or an empty text.
pub open spec fn text_or_empty_opt(s: Option<Seq<char>>) -> Seq<char> {
    match s {
        Some(s) => s,
        None => Seq::empty(),
    }
}

/// The board after a category is chosen: it becomes the settings' category and the category
/// to save under; no layout or style is chosen, and there are no styles to choose from.
pub open spec fn category_changed<F>(b: BoardView<F>, category: Seq<char>) -> BoardView<F> {
    BoardView {
        settings: SettingsView { category, layout_index: 0, style: 0, ..b.settings },
        text_input: b.text_input.set(TextInputType::SaveKeyboardAsCategory, category),
        layout_choice: None,
        style_choice: 0,
        style_options: Seq::empty(),
        ..b
    }
}

/// The board and effects after asking to load the layout at `index`: past the list of
/// layouts, an error window; otherwise edit mode ends, the layout becomes the chosen one in
/// the settings and the name to save under, the style goes back to the built-in one, and the
/// layout file is read.
pub open spec fn load_layout_post<F>(
    old: BoardView<F>,
    index: usize,
    new: BoardView<F>,
    effects: Seq<EffectView<F>>,
) -> bool {
    if index >= old.layout_options.len() {
        let w = WindowId::ErrorPopup(ErrorView::LayoutOpen(layout_index_error()));
        &&& new == old.opened(w)
        &&& effects == opens::<F>(old.windows.next_id, w)
    } else {
        &&& new == BoardView {
            edit_mode: false,
            settings: SettingsView { layout_index: index, ..old.settings },
            layout_choice: Some(index),
            style: spec_without_element_styles(old.default_style),
            text_input: old.text_input.set(
                TextInputType::SaveKeyboardAsName,
                old.layout_options[index as int],
            ),
            ..old
        }
        &&& effects == seq![
            EffectView::<F>::ReadLayout {
                category: old.settings.category,
                name: old.layout_options[index as int],
            },
        ]
    }
}

/// The board and effects after asking to load the style at `index`: past the list of styles,
/// an error window; otherwise it becomes the chosen style, and the built-in style is put in
/// place (see `style_in_place`) or the style file is read.
pub open spec fn load_style_post<F>(
    old: BoardView<F>,
    index: usize,
    new: BoardView<F>,
    effects: Seq<EffectView<F>>,
) -> bool {
    if index >= old.style_options.len() {
        let w = WindowId::ErrorPopup(ErrorView::StyleOpen(style_index_error()));
        &&& new == old.opened(w)
        &&& effects == opens::<F>(old.windows.next_id, w)
    } else {
        let chosen = BoardView {
            settings: SettingsView { style: index, ..old.settings },
            style_choice: index,
            ..old
        };
        let choice = old.style_options[index as int];
        if choice is Default {
            let (b, e) = style_in_place(
                BoardView { style: spec_without_element_styles(old.default_style), ..chosen },
                choice,
            );
            new == b && effects == e
        } else {
            &&& new == chosen
            &&& effects == seq![EffectView::<F>::ReadStyle(style_file_of(old, choice))]
        }
    }
}

/// The board and effects after a window is asked for: a keyboard to load while changes are
/// unsaved asks first (unless it is already asking); a keyboard to load lists the categories;
/// saving the style starts from whether the chosen style is global; then the window opens.
pub open spec fn open_post<F>(
    old: BoardView<F>,
    window: WindowId,
    new: BoardView<F>,
    effects: Seq<EffectView<F>>,
) -> bool {
    let popup = WindowId::UnsavedChangesPopup(Action::LoadKeyboard);
    if window == WindowId::LoadKeyboard && old.has_unsaved_changes() && !old.windows.any_of(popup) {
        &&& new == old.opened(popup)
        &&& effects == opens::<F>(old.windows.next_id, popup)
    } else if window == WindowId::LoadKeyboard {
        &&& new == old.opened(window)
        &&& effects == seq![EffectView::<F>::ListCategories] + opens::<F>(
            old.windows.next_id,
            window,
        )
    } else if window == WindowId::SaveStyleAs {
        let b = BoardView {
            save_style_as_global: old.style_options[old.style_choice as int] is Global,
            ..old
        };
        &&& new == b.opened(window)
        &&& effects == opens::<F>(old.windows.next_id, window)
    } else {
        &&& new == old.opened(window)
        &&& effects == opens::<F>(old.windows.next_id, window)
    }
}

/// The board and effects when closing the application is asked for: with unsaved changes it
/// asks first (unless it is already asking); otherwise the settings are stored and every
/// window is closed.
pub open spec fn close_requested_post<F>(
    old: BoardView<F>,
    new: BoardView<F>,
    effects: Seq<EffectView<F>>,
) -> bool {
    let popup = WindowId::UnsavedChangesPopup(Action::Exit);
    if old.has_unsaved_changes() && !old.windows.any_of(popup) {
        &&& new == old.opened(popup)
        &&& effects == opens::<F>(old.windows.next_id, popup)
    } else {
        &&& new == old
        &&& effects == seq![EffectView::<F>::StoreSettings] + if old.windows.windows.is_empty() {
            Seq::<EffectView<F>>::empty()
        } else {
            seq![EffectView::<F>::CloseWindows(old.windows.windows.dom())]
        }
    }
}

/// The board and effects after the layout is saved: to the given path, or to
/// `keyboard.json` in the chosen layout's directory; the layout has no unsaved changes.
pub open spec fn save_layout_post<F>(
    old: BoardView<F>,
    file: Option<Seq<char>>,
    new: BoardView<F>,
    effects: Seq<EffectView<F>>,
) -> bool {
    &&& new == BoardView { layout_commited: true, ..old }
    &&& effects == seq![
        EffectView::<F>::WriteLayout(
            match file {
                Some(p) => SaveTargetView::Path(p),
                None => SaveTargetView::InLayout {
                    category: old.settings.category,
                    layout: chosen_layout_name(old),
                    file: "keyboard.json"@,
                },
            },
        ),
    ]
}

/// The board and effects after the style is saved: to the given path, or under the chosen
/// style's shown name with the extension `style` in the chosen layout's directory; the style
/// has no unsaved changes.
pub open spec fn save_style_post<F>(
    old: BoardView<F>,
    file: Option<Seq<char>>,
    new: BoardView<F>,
    effects: Seq<EffectView<F>>,
) -> bool {
    &&& new == BoardView { style_commited: true, ..old }
    &&& effects == seq![
        EffectView::<F>::WriteStyle(
            match file {
                Some(p) => SaveTargetView::Path(p),
                None => SaveTargetView::InLayout {
                    category: old.settings.category,
                    layout: chosen_layout_name(old),
                    file: spec_style_choice_display(old.style_options[old.style_choice as int])
                        + ".style"@,
                },
            },
        ),
    ]
}

/// The board and effects after unsaved changes may be discarded: the layout and style count
/// as saved, and the action goes ahead; loading a keyboard lists the categories, opens its
/// window and closes the question.
pub open spec fn commit_post<F>(
    old: BoardView<F>,
    action: Action,
    new: BoardView<F>,
    effects: Seq<EffectView<F>>,
) -> bool {
    let saved = BoardView { layout_commited: true, style_commited: true, ..old };
    match action {
        Action::LoadKeyboard => {
            &&& new == saved.opened(WindowId::LoadKeyboard)
            &&& effects == seq![EffectView::<F>::ListCategories] + opens::<F>(
                saved.windows.next_id,
                WindowId::LoadKeyboard,
            ) + seq![
                EffectView::<F>::CloseWindows(
                    saved.windows.instances(WindowId::UnsavedChangesPopup(action)),
                ),
            ]
        },
        Action::Exit => close_requested_post(saved, new, effects),
    }
}

impl<F: Copy> NuhxBoard<F> {
    /// Opens a window.
    fn open_window(&mut self, window: AppWindow) -> (effects: Vec<Effect<F>>)
        requires
            old(self)@.wf(),
            old(self)@.can_open_window(),
        ensures
            final(self)@ == old(self)@.opened(window@),
            effect_views(effects@) == opens::<F>(old(self)@.windows.next_id, window@),
            final(self)@.wf(),
    {
        let dup = window.duplicate();
        let id = self.windows.open(window);
        let mut effects = Vec::new();
        effects.push(Effect::OpenWindow { id, window: dup });
        assert(effect_views(effects@) =~= opens::<F>(id, dup@));
        effects
    }

    /// Chooses a keyboard category (see `category_changed`); its layouts are listed next.
    pub fn change_keyboard_category(&mut self, category: String) -> (effects: Vec<Effect<F>>)
        requires
            category@.len() > 0,
        ensures
            final(self)@ == category_changed(old(self)@, category@),
            effect_views(effects@) == seq![EffectView::<F>::ListLayouts { category: category@ }],
    {
        self.text_input.set(TextInputType::SaveKeyboardAsCategory, category.clone());
        let mut effects = Vec::new();
        effects.push(Effect::ListLayouts { category: category.clone() });
        self.settings.category = category;
        self.layout_choice = None;
        self.settings.layout_index = 0;
        self.style_choice = 0;
        self.settings.style = 0;
        self.style_options = Vec::new();
        proof {
            assert(self@.style_options =~= Seq::<StyleChoiceView>::empty());
            assert(effect_views(effects@) =~= seq![
                EffectView::<F>::ListLayouts { category: self.settings.category@ },
            ]);
        }
        effects
    }

    /// The layouts of the category are listed: they become the layouts to choose from, those
    /// directories but `images`, sorted.
    pub fn layouts_listed(&mut self, entries: &Vec<DirEntryInfo>)
        ensures
            final(self)@ == (BoardView { layout_options: final(self)@.layout_options, ..old(self)@ }),
            texts_sorted(final(self)@.layout_options),
            final(self)@.layout_options.to_multiset() == dir_names_except(
                entry_views(entries@),
                "images"@,
            ).to_multiset(),
    {
        self.layout_options = layout_options(entries);
    }

    /// The keyboards directory is listed: its directories but `global`, sorted, become the
    /// categories to choose from.
    pub fn categories_listed(&mut self, entries: &Vec<DirEntryInfo>)
        ensures
            final(self)@ == (BoardView {
                keyboard_category_options: final(self)@.keyboard_category_options,
                ..old(self)@
            }),
            texts_sorted(final(self)@.keyboard_category_options),
            final(self)@.keyboard_category_options.to_multiset() == dir_names_except(
                entry_views(entries@),
                "global"@,
            ).to_multiset(),
    {
        self.keyboard_category_options = category_options(entries);
    }

    /// Asks to load the layout at `index` (see `load_layout_post`).
    pub fn load_layout(&mut self, index: usize) -> (effects: Vec<Effect<F>>)
        requires
            old(self)@.wf(),
            old(self)@.can_open_window(),
        ensures
            load_layout_post(old(self)@, index, final(self)@, effect_views(effects@)),
            final(self)@.wf(),
    {
        if index >= self.layout_options.len() {
            return self.error(
                NuhxBoardError::LayoutOpen(String::from_str("Provided layout index is out of bounds")),
            );
        }
        self.edit_mode = false;
        self.settings.layout_index = index;
        self.layout_choice = Some(index);
        self.style = self.default_style.without_element_styles();
        let name = self.layout_options[index].clone();
        self.text_input.set(TextInputType::SaveKeyboardAsName, name.clone());
        let mut effects = Vec::new();
        effects.push(Effect::ReadLayout { category: self.settings.category.clone(), name });
        assert(effect_views(effects@) =~= seq![
            EffectView::<F>::ReadLayout {
                category: old(self)@.settings.category,
                name: old(self)@.layout_options[index as int],
            },
        ]);
        effects
    }

    /// The layout file was read: on an error, an error window opens; otherwise the layout is
    /// in place, its styles (from the listings of its directory and of the global styles)
    /// are the ones to choose from with the default one chosen, everything is drawn again and
    /// the main window takes the layout's size.
    pub fn layout_loaded(
        &mut self,
        outcome: LoadOutcome<Layout<F>>,
        layout_dir: &Vec<DirEntryInfo>,
        global_dir: &Vec<DirEntryInfo>,
    ) -> (effects: Vec<Effect<F>>)
        requires
            old(self)@.wf(),
            old(self)@.can_open_window(),
            style_files_have_stems(entry_views(layout_dir@)),
            style_files_have_stems(entry_views(global_dir@)),
        ensures
            final(self)@.wf(),
            match outcome {
                LoadOutcome::OpenFailed(e) => {
                    let w = WindowId::ErrorPopup(ErrorView::LayoutOpen(e@));
                    &&& final(self)@ == old(self)@.opened(w)
                    &&& effect_views(effects@) == opens::<F>(old(self)@.windows.next_id, w)
                },
                LoadOutcome::ParseFailed(e) => {
                    let w = WindowId::ErrorPopup(ErrorView::LayoutParse(e@));
                    &&& final(self)@ == old(self)@.opened(w)
                    &&& effect_views(effects@) == opens::<F>(old(self)@.windows.next_id, w)
                },
                LoadOutcome::Loaded(layout) => {
                    &&& final(self)@ == (BoardView {
                        version: layout.version,
                        width: layout.width,
                        height: layout.height,
                        elements: layout@,
                        style_options: spec_style_options(
                            entry_views(layout_dir@),
                            entry_views(global_dir@),
                        ),
                        style_choice: 0,
                        ..old(self)@
                    })
                    &&& effect_views(effects@) == seq![
                        EffectView::<F>::Redraw(crate::events::Redraw::All),
                        EffectView::<F>::ResizeMainWindow {
                            width: layout.width,
                            height: layout.height,
                        },
                    ]
                },
            },
    {
        match outcome {
            LoadOutcome::OpenFailed(e) => self.error(NuhxBoardError::LayoutOpen(e)),
            LoadOutcome::ParseFailed(e) => self.error(NuhxBoardError::LayoutParse(e)),
            LoadOutcome::Loaded(layout) => {
                let width = layout.width;
                let height = layout.height;
                self.layout = layout;
                self.style_options = style_options(layout_dir, global_dir);
                self.style_choice = 0;
                let mut effects = Vec::new();
                effects.push(Effect::Redraw(crate::events::Redraw::All));
                effects.push(Effect::ResizeMainWindow { width, height });
                assert(effect_views(effects@) =~= seq![
                    EffectView::<F>::Redraw(crate::events::Redraw::All),
                    EffectView::<F>::ResizeMainWindow { width, height },
                ]);
                effects
            },
        }
    }

    /// Puts the chosen style in place (see `style_in_place`).
    fn put_style_in_place(&mut self, choice: &StyleChoice) -> (effects: Vec<Effect<F>>)
        requires
            old(self)@.wf(),
        ensures
            final(self)@.wf(),
            ({
                let (b, e) = style_in_place(old(self)@, choice@);
                final(self)@ == b && effect_views(effects@) == e
            }),
    {
        reveal(style_in_place);
        let background = self.style.background_image();
        let loose = self.style.default_key_background_image(KeyState::Loose);
        let pressed = self.style.default_key_background_image(KeyState::Pressed);
        self.text_input.set(TextInputType::SaveStyleAsName, choice.name());
        self.text_input.set(TextInputType::KeyboardBackgroundImage, text_or_empty(&background));
        self.text_input.set(TextInputType::DefaultLooseKeyBackgroundImage, text_or_empty(&loose));
        self.text_input.set(
            TextInputType::DefaultPressedKeyBackgroundImage,
            text_or_empty(&pressed),
        );
        let mut effects = Vec::new();
        effects.push(
            Effect::RefreshBackgroundImage {
                category: self.settings.category.clone(),
                file_name: background,
            },
        );
        effects.push(Effect::Redraw(crate::events::Redraw::All));
        proof {
            let (b, e) = style_in_place(old(self)@, choice@);
            assert(effect_views(effects@) =~= e);
        }
        effects
    }

    /// Asks to load the style at `index` (see `load_style_post`).
    #[verifier::rlimit(40)]
    #[verifier::spinoff_prover]
    pub fn load_style(&mut self, index: usize) -> (effects: Vec<Effect<F>>)
        requires
            old(self)@.wf(),
            old(self)@.can_open_window(),
            index < old(self)@.style_options.len() && old(self)@.style_options[index as int] is Custom
                ==> chosen_layout_valid(old(self)@),
        ensures
            load_style_post(old(self)@, index, final(self)@, effect_views(effects@)),
            final(self)@.wf(),
    {
        if index >= self.style_options.len() {
            return self.error(
                NuhxBoardError::StyleOpen(String::from_str("Provided style index is out of bounds")),
            );
        }
        self.settings.style = index;
        self.style_choice = index;
        let choice = self.style_options[index].duplicate();
        if choice.is_default() {
            self.style = self.default_style.without_element_styles();
            self.put_style_in_place(&choice)
        } else {
            self.read_style_effects(&choice)
        }
    }

    /// Effects: reading the style file of a style choice that is not the default one.
    fn read_style_effects(&self, choice: &StyleChoice) -> (effects: Vec<Effect<F>>)
        requires
            !(choice@ is Default),
            choice@ is Custom ==> chosen_layout_valid(self@),
        ensures
            effect_views(effects@) == seq![EffectView::<F>::ReadStyle(style_file_of(self@, choice@))],
    {
        let file = match choice {
            StyleChoice::Global(name) => StyleFile::Global { name: name.clone() },
            _ => {
                let name = match choice {
                    StyleChoice::Custom(name) => name.clone(),
                    _ => String::new(),
                };
                let layout = match self.layout_choice {
                    Some(i) => self.layout_options[i].clone(),
                    None => String::new(),
                };
                StyleFile::Custom { category: self.settings.category.clone(), layout, name }
            },
        };
        let ghost f = file@;
        let mut effects = Vec::new();
        effects.push(Effect::ReadStyle(file));
        assert(effect_views(effects@) =~= seq![EffectView::<F>::ReadStyle(f)]);
        effects
    }

    /// The style file was read: on an error, an error window opens; otherwise the style is put
    /// in place (see `style_in_place`) for the chosen style.
    pub fn style_loaded(&mut self, outcome: LoadOutcome<Style<F>>) -> (effects: Vec<Effect<F>>)
        requires
            old(self)@.wf(),
            old(self)@.can_open_window(),
            old(self)@.style_choice < old(self)@.style_options.len(),
        ensures
            final(self)@.wf(),
            match outcome {
                LoadOutcome::OpenFailed(e) => {
                    let w = WindowId::ErrorPopup(ErrorView::StyleOpen(e@));
                    &&& final(self)@ == old(self)@.opened(w)
                    &&& effect_views(effects@) == opens::<F>(old(self)@.windows.next_id, w)
                },
                LoadOutcome::ParseFailed(e) => {
                    let w = WindowId::ErrorPopup(ErrorView::StyleParse(e@));
                    &&& final(self)@ == old(self)@.opened(w)
                    &&& effect_views(effects@) == opens::<F>(old(self)@.windows.next_id, w)
                },
                LoadOutcome::Loaded(style) => {
                    let (b, e) = style_in_place(
                        BoardView { style: style@, ..old(self)@ },
                        old(self)@.style_options[old(self)@.style_choice as int],
                    );
                    final(self)@ == b && effect_views(effects@) == e
                },
            },
    {
        match outcome {
            LoadOutcome::OpenFailed(e) => self.error(NuhxBoardError::StyleOpen(e)),
            LoadOutcome::ParseFailed(e) => self.error(NuhxBoardError::StyleParse(e)),
            LoadOutcome::Loaded(style) => {
                self.style = style;
                let choice = self.style_options[self.style_choice].duplicate();
                self.put_style_in_place(&choice)
            },
        }
    }

    /// Saves the layout: to the given path, or to `keyboard.json` in the chosen layout's
    /// directory. The layout has no unsaved changes.
    pub fn save_layout(&mut self, file: Option<String>) -> (effects: Vec<Effect<F>>)
        requires
            file is None ==> chosen_layout_valid(old(self)@),
        ensures
            save_layout_post(old(self)@, opt_text(file), final(self)@, effect_views(effects@)),
    {
        let target = match file {
            Some(p) => SaveTarget::Path(p),
            None => {
                let layout = match self.layout_choice {
                    Some(i) => self.layout_options[i].clone(),
                    None => String::new(),
                };
                SaveTarget::InLayout {
                    category: self.settings.category.clone(),
                    layout,
                    file: String::from_str("keyboard.json"),
                }
            },
        };
        let mut effects = Vec::new();
        let ghost t = target@;
        effects.push(Effect::WriteLayout(target));
        assert(effect_views(effects@) =~= seq![EffectView::<F>::WriteLayout(t)]);
        self.layout_commited = true;
        effects
    }

    /// Saves the style: to the given path, or to the chosen style's shown name with the
    /// extension `style` in the chosen layout's directory. The style has no unsaved changes.
    pub fn save_style(&mut self, file: Option<String>) -> (effects: Vec<Effect<F>>)
        requires
            file is None ==> chosen_layout_valid(old(self)@) && old(self)@.style_choice < old(
                self,
            )@.style_options.len(),
        ensures
            save_style_post(old(self)@, opt_text(file), final(self)@, effect_views(effects@)),
    {
        let target = match file {
            Some(p) => SaveTarget::Path(p),
            None => {
                let layout = match self.layout_choice {
                    Some(i) => self.layout_options[i].clone(),
                    None => String::new(),
                };
                let mut name = self.style_options[self.style_choice].to_string();
                name.append(".style");
                SaveTarget::InLayout { category: self.settings.category.clone(), layout, file: name }
            },
        };
        let mut effects = Vec::new();
        let ghost t = target@;
        effects.push(Effect::WriteStyle(target));
        assert(effect_views(effects@) =~= seq![EffectView::<F>::WriteStyle(t)]);
        self.style_commited = true;
        effects
    }

    /// Asks for a window (see `open_post`).
    pub fn open(&mut self, window: AppWindow) -> (effects: Vec<Effect<F>>)
        requires
            old(self)@.wf(),
            old(self)@.can_open_window(),
            window@ == WindowId::SaveStyleAs ==> old(self)@.style_choice < old(
                self,
            )@.style_options.len(),
        ensures
            open_post(old(self)@, window@, final(self)@, effect_views(effects@)),
            final(self)@.wf(),
    {
        match window {
            AppWindow::LoadKeyboard(_) => {
                let popup = AppWindow::UnsavedChangesPopup(UnsavedChangesPopup(Action::LoadKeyboard));
                if (!self.layout_commited || !self.style_commited) && !self.windows.any_of(&popup) {
                    return self.open_window(popup);
                }
                let mut effects = Vec::new();
                effects.push(Effect::ListCategories);
                let ghost first = effects@;
                let mut more = self.open_window(window);
                let ghost added = more@;
                effects.append(&mut more);
                assert(effect_views(effects@) =~= effect_views(first) + effect_views(added));
                assert(effect_views(first) =~= seq![EffectView::<F>::ListCategories]);
                effects
            },
            AppWindow::SaveStyleAs(_) => {
                self.save_style_as_global = self.style_options[self.style_choice].is_global();
                self.open_window(window)
            },
            _ => self.open_window(window),
        }
    }

    /// Closing the application is asked for (see `close_requested_post`).
    pub fn close_requested(&mut self) -> (effects: Vec<Effect<F>>)
        requires
            old(self)@.wf(),
            old(self)@.can_open_window(),
        ensures
            close_requested_post(old(self)@, final(self)@, effect_views(effects@)),
            final(self)@.wf(),
    {
        let popup = AppWindow::UnsavedChangesPopup(UnsavedChangesPopup(Action::Exit));
        if (!self.layout_commited || !self.style_commited) && !self.windows.any_of(&popup) {
            return self.open_window(popup);
        }
        let mut effects = Vec::new();
        effects.push(Effect::StoreSettings);
        if !self.windows.empty() {
            let ids = self.windows.close_all();
            effects.push(Effect::CloseWindows(ids));
            assert(effect_views(effects@) =~= seq![EffectView::<F>::StoreSettings] + seq![
                EffectView::<F>::CloseWindows(self@.windows.windows.dom()),
            ]);
        } else {
            assert(effect_views(effects@) =~= seq![EffectView::<F>::StoreSettings]
                + Seq::<EffectView<F>>::empty());
        }
        effects
    }

    /// Exiting is asked for: as closing the application (see `close_requested_post`).
    pub fn exit(&mut self) -> (effects: Vec<Effect<F>>)
        requires
            old(self)@.wf(),
            old(self)@.can_open_window(),
        ensures
            close_requested_post(old(self)@, final(self)@, effect_views(effects@)),
            final(self)@.wf(),
    {
        self.close_requested()
    }

    /// The unsaved changes may be discarded: the layout and style count as saved, and the
    /// action goes ahead; for loading a keyboard, the question closes too.
    pub fn commit(&mut self, action: Action) -> (effects: Vec<Effect<F>>)
        requires
            old(self)@.wf(),
            old(self)@.can_open_window(),
        ensures
            final(self)@.wf(),
            commit_post(old(self)@, action, final(self)@, effect_views(effects@)),
    {
        self.layout_commited = true;
        self.style_commited = true;
        match action {
            Action::LoadKeyboard => {
                let popup = AppWindow::UnsavedChangesPopup(UnsavedChangesPopup(action));
                let mut close = self.close_all_of(&popup);
                let ghost saved = self@;
                let mut effects = self.open(AppWindow::LoadKeyboard(LoadKeyboard));
                let ghost first = effects@;
                let ghost second = close@;
                effects.append(&mut close);
                assert(effect_views(effects@) =~= effect_views(first) + effect_views(second));
                effects
            },
            Action::Exit => self.exit(),
        }
    }

    /// The discarding of unsaved changes is cancelled: the question closes.
    pub fn cancel_discard(&self, action: Action) -> (effects: Vec<Effect<F>>)
        ensures
            effect_views(effects@) == seq![
                EffectView::<F>::CloseWindows(
                    self@.windows.instances(WindowId::UnsavedChangesPopup(action)),
                ),
            ],
    {
        self.close_all_of(&AppWindow::UnsavedChangesPopup(UnsavedChangesPopup(action)))
    }
}

/// An optional string, or an empty string.
fn text_or_empty(s: &Option<String>) -> (r: String)
    ensures
        r@ == text_or_empty_opt(opt_string_view(*s)),
{
    match s {
        Some(s) => s.clone(),
        None => String::new(),
    }
}

} // verus!
