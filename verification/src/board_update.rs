use vstd::prelude::*;
use crate::board::{
    BoardView, NuhxBoard, change_setting_post, closed_post, push_change_post, redo_post,
    release_scroll_post, undo_post, update_hovered_post,
};
use crate::board_edit::{
    can_add_element, change_element_post, make_rectangle_post, new_id, new_polygon,
    redraw_element, remove_element_post, swap_boundaries_post,
};
use crate::board_files::{
    category_changed, chosen_layout_valid, close_requested_post, commit_post, load_layout_post,
    load_style_post, open_post, save_layout_post, save_style_post,
};
use crate::board_input::{input_event_post, wheel_has_room};
use crate::board_style::{color_picker_allowed, color_result, style_setting_allowed, style_setting_result};
use crate::events::{Effect, EffectView, Message, Redraw, StyleSetting, effect_views};
use crate::choices::StyleChoice;
use crate::pickers::ColorPicker;
use crate::style::Style;
use crate::layout::{ElementKind, ElementView, property_applies};
use crate::options::opt_text;
use crate::windows::{AppWindow, WindowId};

verus! {

/// What a message needs of the board, besides its well-formedness: the indices it names
/// exist, the elements and styles it changes are of the right kind, a category is not empty,
/// a save without a path has a chosen layout (and style), and a new element can get an id.
pub open spec fn update_allowed<F>(b: BoardView<F>, m: Message<F>) -> bool {
    let len = b.elements.len();
    match m {
        Message::Listener(event, _) => wheel_has_room(b, event@),
        Message::ChangeKeyboardCategory(c) => c@.len() > 0,
        Message::LoadStyle(i) => i < b.style_options.len() && b.style_options[i as int] is Custom
            ==> chosen_layout_valid(b),
        Message::SaveLayout(f) => f is None ==> chosen_layout_valid(b),
        Message::SaveStyle(f) => f is None ==> chosen_layout_valid(b) && b.style_choice
            < b.style_options.len(),
        Message::ChangeStyle(s) => style_setting_allowed(b.style, s),
        Message::Open(w) => w@ == WindowId::SaveStyleAs ==> b.style_choice < b.style_options.len(),
        Message::ChangeColor(p, _) => color_picker_allowed(b.style, p),
        Message::UpdateHoveredElement(h) => (b.hovered_element matches Some(i) ==> i < len) && (
        h matches Some(i) ==> i < len),
        Message::ChangeElement(i, p) => i < len && property_applies(b.elements[i as int], p),
        Message::SwapBoundaries(i, l, r) => i < len && b.elements[i as int].is_polygon() && l
            < b.elements[i as int].boundaries.len() && r < b.elements[i as int].boundaries.len(),
        Message::MakeRectangle(i, _) => i < len && b.elements[i as int].is_polygon(),
        Message::ClearCache(i) => i < len,
        Message::AddKeyboardKey(_) => can_add_element(b),
        Message::AddMouseKey(_) => can_add_element(b),
        Message::AddMouseScroll(_) => can_add_element(b),
        Message::AddMouseSpeedIndicator(_) => can_add_element(b),
        Message::RemoveElement => b.hovered_element matches Some(i) ==> i < len,
        _ => true,
    }
}

/// No effect.
pub open spec fn none<F>() -> Seq<EffectView<F>> {
    Seq::empty()
}

/// The board and effects after a message: each message does what its handler's contract
/// says.
pub open spec fn update_post<F>(
    old: BoardView<F>,
    m: Message<F>,
    new: BoardView<F>,
    effects: Seq<EffectView<F>>,
) -> bool {
    match m {
        Message::Listener(event, now) => input_event_post(old, event@, now, new, effects),
        Message::Noop => new == old && effects == none::<F>(),
        Message::ReleaseScroll(button) => release_scroll_post(old, button, new, effects),
        Message::ChangeKeyboardCategory(c) => new == category_changed(old, c@) && effects == seq![
            EffectView::<F>::ListLayouts { category: c@ },
        ],
        Message::LoadLayout(i) => load_layout_post(old, i, new, effects),
        Message::LoadStyle(i) => load_style_post(old, i, new, effects),
        Message::ChangeSetting(s) => change_setting_post(old, s, new, effects),
        Message::ClearPressedKeys => new == (BoardView { pressed_keys: Map::empty(), ..old })
            && effects == seq![EffectView::<F>::Redraw(Redraw::All)],
        Message::ToggleEditMode => new == (BoardView { edit_mode: !old.edit_mode, ..old })
            && effects == none::<F>(),
        Message::SaveLayout(f) => save_layout_post(old, opt_text(f), new, effects),
        Message::SaveStyle(f) => save_style_post(old, opt_text(f), new, effects),
        Message::SetHeight(h) => new == (BoardView { height: h, ..old }) && effects == seq![
            EffectView::ResizeMainWindow { width: old.width, height: h },
        ],
        Message::SetWidth(w) => new == (BoardView { width: w, ..old }) && effects == seq![
            EffectView::ResizeMainWindow { width: w, height: old.height },
        ],
        Message::PushChange(c) => push_change_post(old, c, new) && effects == none::<F>(),
        Message::Undo => undo_post(old, new, effects),
        Message::Redo => redo_post(old, new, effects),
        Message::ChangeTextInput(t, v) => new == (BoardView {
            text_input: old.text_input.set(t, v@),
            ..old
        }) && effects == none::<F>(),
        Message::ChangeStyle(s) => {
            let (style, e) = style_setting_result::<F>(
                old.style,
                old.text_input,
                old.settings.category,
                s,
            );
            new == (BoardView { style, style_commited: false, ..old }) && effects == e
        },
        Message::ToggleSaveStyleAsGlobal => new == (BoardView {
            save_style_as_global: !old.save_style_as_global,
            ..old
        }) && effects == none::<F>(),
        Message::Open(w) => open_post(old, w@, new, effects),
        Message::CloseAllOf(w) => new == old && effects == seq![
            EffectView::<F>::CloseWindows(old.windows.instances(w@)),
        ],
        Message::Exit => close_requested_post(old, new, effects),
        Message::Closed(id) => closed_post(old, id, new, effects),
        Message::CloseRequested => close_requested_post(old, new, effects),
        Message::ChangeColor(p, c) => {
            let (style, e) = color_result::<F>(old.style, p, c);
            new == (BoardView {
                style,
                color_pickers: old.color_pickers.set(p, !old.color_pickers.state(p)),
                style_commited: false,
                ..old
            }) && effects == e
        },
        Message::ToggleColorPicker(p) => new == (BoardView {
            color_pickers: old.color_pickers.set(p, !old.color_pickers.state(p)),
            ..old
        }) && effects == none::<F>(),
        Message::UpdateHoveredElement(h) => update_hovered_post(old, h, new, effects),
        Message::ChangeElement(i, p) => change_element_post(old, i, p, new, effects),
        Message::ChangeNumberInput(n) => new == (BoardView {
            number_input: old.number_input.set(n),
            ..old
        }) && effects == none::<F>(),
        Message::ChangeSelection(e, t, s) => new == (BoardView {
            selections: old.selections.select(e, t, s),
            ..old
        }) && effects == none::<F>(),
        Message::SwapBoundaries(i, l, r) => swap_boundaries_post(old, i, l, r, new, effects),
        Message::MakeRectangle(i, c) => make_rectangle_post(old, i, c@, new, effects),
        Message::StartDetecting(e) => new == (BoardView { detecting: old.detecting.push(e), ..old })
            && effects == none::<F>(),
        Message::ClearCache(i) => new == old && effects == redraw_element::<F>(i),
        Message::ClearAllCaches => new == old && effects == seq![
            EffectView::<F>::Redraw(Redraw::All),
        ],
        Message::AddKeyboardKey(b) => new == (BoardView {
            elements: old.elements.push(
                new_polygon(old, ElementKind::KeyboardKey, b@, Seq::empty()),
            ),
            layout_commited: false,
            ..old
        }) && effects == none::<F>(),
        Message::AddMouseKey(b) => new == (BoardView {
            elements: old.elements.push(new_polygon(old, ElementKind::MouseKey, b@, seq![0u32])),
            layout_commited: false,
            ..old
        }) && effects == none::<F>(),
        Message::AddMouseScroll(b) => new == (BoardView {
            elements: old.elements.push(
                new_polygon(old, ElementKind::MouseScroll, b@, Seq::empty()),
            ),
            layout_commited: false,
            ..old
        }) && effects == none::<F>(),
        Message::AddMouseSpeedIndicator(r) => new == (BoardView {
            elements: old.elements.push(
                ElementView {
                    kind: ElementKind::MouseSpeedIndicator,
                    id: new_id(old),
                    boundaries: Seq::empty(),
                    text_position: old.right_click_pos,
                    key_codes: Seq::empty(),
                    text: Seq::empty(),
                    shift_text: Seq::empty(),
                    change_on_caps: false,
                    radius: r,
                },
            ),
            layout_commited: false,
            ..old
        }) && effects == none::<F>(),
        Message::RightClick(w) => new == (if w == old.main_window {
            BoardView { right_click_pos: old.mouse_pos, ..old }
        } else {
            old
        }) && effects == none::<F>(),
        Message::MouseMoved { position, window } => new == (if window == old.main_window {
            BoardView { mouse_pos: position, ..old }
        } else {
            old
        }) && effects == none::<F>(),
        Message::RemoveElement => remove_element_post(old, new) && effects == none::<F>(),
        Message::Commit(a) => commit_post(old, a, new, effects),
        Message::CancelDiscard(a) => new == old && effects == seq![
            EffectView::<F>::CloseWindows(old.windows.instances(WindowId::UnsavedChangesPopup(a))),
        ],
    }
}

fn no_effects<F>() -> (effects: Vec<Effect<F>>)
    ensures
        effect_views(effects@) == none::<F>(),
{
    let effects = Vec::new();
    assert(effect_views(effects@) =~= none::<F>());
    effects
}

/// Whether a style setting may apply to the style (see `style_setting_allowed`).
fn setting_allowed<F: Copy>(style: &Style<F>, setting: StyleSetting) -> (r: bool)
    ensures
        r == style_setting_allowed(style@, setting),
{
    match setting {
        StyleSetting::LooseKeyFontFamily(id) => style.key_style_or_absent(id),
        StyleSetting::LooseKeyShowOutline(id) => style.key_style_or_absent(id),
        StyleSetting::LooseKeyOutlineWidth { id, .. } => style.key_style_or_absent(id),
        StyleSetting::LooseKeyBackgroundImage(id) => style.key_style_or_absent(id),
        StyleSetting::LooseKeyFontStyle { id, .. } => style.key_style_or_absent(id),
        StyleSetting::PressedKeyFontFamily(id) => style.key_style_or_absent(id),
        StyleSetting::PressedKeyShowOutline(id) => style.key_style_or_absent(id),
        StyleSetting::PressedKeyOutlineWidth { id, .. } => style.key_style_or_absent(id),
        StyleSetting::PressedKeyBackgroundImage(id) => style.key_style_or_absent(id),
        StyleSetting::PressedKeyFontStyle { id, .. } => style.key_style_or_absent(id),
        StyleSetting::MouseSpeedIndicatorOutlineWidth { id, .. } => style.indicator_style_or_absent(
            id,
        ),
        _ => true,
    }
}

/// Whether a color picker may apply to the style (see `color_picker_allowed`).
fn picker_allowed<F: Copy>(style: &Style<F>, picker: ColorPicker) -> (r: bool)
    ensures
        r == color_picker_allowed(style@, picker),
{
    match picker {
        ColorPicker::LooseBackground(id) => style.key_style_or_absent(id),
        ColorPicker::LooseText(id) => style.key_style_or_absent(id),
        ColorPicker::LooseOutline(id) => style.key_style_or_absent(id),
        ColorPicker::PressedBackground(id) => style.key_style_or_absent(id),
        ColorPicker::PressedText(id) => style.key_style_or_absent(id),
        ColorPicker::PressedOutline(id) => style.key_style_or_absent(id),
        ColorPicker::MouseSpeedIndicator1(id) => style.indicator_style_or_absent(id),
        ColorPicker::MouseSpeedIndicator2(id) => style.indicator_style_or_absent(id),
        _ => true,
    }
}

impl<F: Copy> NuhxBoard<F> {
    /// Whether a layout is chosen and in the list of layouts.
    fn chosen_layout_valid_exec(&self) -> (r: bool)
        ensures
            r == chosen_layout_valid(self@),
    {
        match self.layout_choice {
            Some(i) => i < self.layout_options.len(),
            None => false,
        }
    }

    /// Whether the element at `i` exists and has an outline.
    fn polygon_at(&self, i: usize) -> (r: bool)
        ensures
            r == (i < self@.elements.len() && self@.elements[i as int].is_polygon()),
    {
        i < self.layout.elements.len() && self.layout.elements[i].key_codes().is_some()
    }

    /// Whether `update` can take the message now (see `update_allowed`): the indices it names
    /// exist, the elements and styles it changes are of the right kind, and so on.
    pub fn allows(&self, message: &Message<F>) -> (r: bool)
        ensures
            r == update_allowed(self@, *message),
    {
        let len = self.layout.elements.len();
        match message {
            Message::Listener(event, _) => self.has_room_for(event),
            Message::ChangeKeyboardCategory(c) => c.as_str().unicode_len() > 0,
            Message::LoadStyle(i) => {
                let custom = *i < self.style_options.len() && match &self.style_options[*i] {
                    StyleChoice::Custom(_) => true,
                    _ => false,
                };
                !custom || self.chosen_layout_valid_exec()
            },
            Message::SaveLayout(f) => f.is_some() || self.chosen_layout_valid_exec(),
            Message::SaveStyle(f) => f.is_some() || (self.chosen_layout_valid_exec()
                && self.style_choice < self.style_options.len()),
            Message::ChangeStyle(s) => setting_allowed(&self.style, *s),
            Message::Open(w) => match w {
                AppWindow::SaveStyleAs(_) => self.style_choice < self.style_options.len(),
                _ => true,
            },
            Message::ChangeColor(p, _) => picker_allowed(&self.style, *p),
            Message::UpdateHoveredElement(h) => {
                let old_ok = match self.hovered_element {
                    Some(i) => i < len,
                    None => true,
                };
                let new_ok = match h {
                    Some(i) => *i < len,
                    None => true,
                };
                old_ok && new_ok
            },
            Message::ChangeElement(i, p) => *i < len && self.layout.elements[*i].accepts(p),
            Message::SwapBoundaries(i, l, r) => self.polygon_at(*i)
                && *l < self.layout.elements[*i].boundary_count()
                && *r < self.layout.elements[*i].boundary_count(),
            Message::MakeRectangle(i, _) => self.polygon_at(*i),
            Message::ClearCache(i) => *i < len,
            Message::AddKeyboardKey(_) => self.layout.max_id() < u32::MAX,
            Message::AddMouseKey(_) => self.layout.max_id() < u32::MAX,
            Message::AddMouseScroll(_) => self.layout.max_id() < u32::MAX,
            Message::AddMouseSpeedIndicator(_) => self.layout.max_id() < u32::MAX,
            Message::RemoveElement => match self.hovered_element {
                Some(i) => i < len,
                None => true,
            },
            _ => true,
        }
    }
}

impl<F: Copy> NuhxBoard<F> {
    /// Handles a message (see `update_post`). Every message keeps the board well formed.
    #[verifier::rlimit(80)]
    #[verifier::spinoff_prover]
    pub fn update(&mut self, message: Message<F>) -> (effects: Vec<Effect<F>>)
        requires
            old(self)@.wf(),
            old(self)@.can_open_window(),
            update_allowed(old(self)@, message),
        ensures
            update_post(old(self)@, message, final(self)@, effect_views(effects@)),
            final(self)@.wf(),
    {
        match message {
            Message::Listener(event, now) => self.input_event(event, now),
            Message::Noop => no_effects(),
            Message::ReleaseScroll(button) => self.release_scroll(button),
            Message::ChangeKeyboardCategory(c) => self.change_keyboard_category(c),
            Message::LoadLayout(i) => self.load_layout(i),
            Message::LoadStyle(i) => self.load_style(i),
            Message::ChangeSetting(s) => self.change_setting(s),
            Message::ClearPressedKeys => self.clear_pressed_keys(),
            Message::ToggleEditMode => {
                self.toggle_edit_mode();
                no_effects()
            },
            Message::SaveLayout(f) => self.save_layout(f),
            Message::SaveStyle(f) => self.save_style(f),
            Message::SetHeight(h) => self.set_height(h),
            Message::SetWidth(w) => self.set_width(w),
            Message::PushChange(c) => {
                self.push_change(c);
                no_effects()
            },
            Message::Undo => self.undo(),
            Message::Redo => self.redo(),
            Message::ChangeTextInput(t, v) => {
                self.change_text_input(t, v);
                no_effects()
            },
            Message::ChangeStyle(s) => self.change_style(s),
            Message::ToggleSaveStyleAsGlobal => {
                self.toggle_save_style_as_global();
                no_effects()
            },
            Message::Open(w) => self.open(w),
            Message::CloseAllOf(w) => self.close_all_of(&w),
            Message::Exit => self.exit(),
            Message::Closed(id) => self.closed(id),
            Message::CloseRequested => self.close_requested(),
            Message::ChangeColor(p, c) => self.change_color(p, c),
            Message::ToggleColorPicker(p) => {
                self.toggle_color_picker(p);
                no_effects()
            },
            Message::UpdateHoveredElement(h) => self.update_hovered_element(h),
            Message::ChangeElement(i, p) => self.change_element(i, p),
            Message::ChangeNumberInput(n) => {
                self.change_number_input(n);
                no_effects()
            },
            Message::ChangeSelection(e, t, s) => {
                self.change_selection(e, t, s);
                no_effects()
            },
            Message::SwapBoundaries(i, l, r) => self.swap_boundaries(i, l, r),
            Message::MakeRectangle(i, c) => self.make_rectangle(i, c),
            Message::StartDetecting(e) => {
                self.start_detecting(e);
                no_effects()
            },
            Message::ClearCache(i) => self.clear_cache(i),
            Message::ClearAllCaches => self.clear_all_caches(),
            Message::AddKeyboardKey(b) => {
                self.add_keyboard_key(b);
                no_effects()
            },
            Message::AddMouseKey(b) => {
                self.add_mouse_key(b);
                no_effects()
            },
            Message::AddMouseScroll(b) => {
                self.add_mouse_scroll(b);
                no_effects()
            },
            Message::AddMouseSpeedIndicator(r) => {
                self.add_mouse_speed_indicator(r);
                no_effects()
            },
            Message::RightClick(w) => {
                self.right_click(w);
                no_effects()
            },
            Message::MouseMoved { position, window } => {
                self.mouse_moved(position, window);
                no_effects()
            },
            Message::RemoveElement => {
                self.remove_element();
                no_effects()
            },
            Message::Commit(a) => self.commit(a),
            Message::CancelDiscard(a) => self.cancel_discard(a),
        }
    }
}

} // verus!
