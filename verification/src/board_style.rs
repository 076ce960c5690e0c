use vstd::prelude::*;
use crate::board::{BoardView, NuhxBoard};
use crate::events::{Effect, EffectView, Redraw, StyleSetting, effect_views};
use crate::inputs::{TextInput, TextInputType, TextInputView};
use crate::pickers::ColorPicker;
use crate::style::{
    IndicatorStyleChange, KeyState, NohRgb, Style, StyleView, SubStyleChange, SubStyleChangeView,
    is_indicator_style_or_absent, is_key_style_or_absent, opt_string_view,
    spec_default_indicator_changed, spec_default_key_style_changed, spec_indicator_style_changed,
    spec_key_style_changed, spec_indicator_style, spec_key_sub_style, SubStyleView,
    MouseSpeedIndicatorStyle,
};

verus! {

/// The image named in a text input: none when the input is empty.
pub open spec fn image_from_input(s: Seq<char>) -> Option<Seq<char>> {
    if s.len() == 0 {
        None
    } else {
        Some(s)
    }
}

/// Effects: everything is drawn again.
pub open spec fn redraw_all<F>() -> Seq<EffectView<F>> {
    seq![EffectView::<F>::Redraw(Redraw::All)]
}

/// Effects: the element with an id is drawn again.
pub open spec fn redraw_id<F>(id: u32) -> Seq<EffectView<F>> {
    seq![EffectView::<F>::Redraw(Redraw::Id(id))]
}

/// A style setting that changes one element's style can only apply to an element whose own
/// style, if it has one, is of its kind.
pub open spec fn style_setting_allowed<F>(style: StyleView<F>, setting: StyleSetting) -> bool {
    match setting {
        StyleSetting::LooseKeyFontFamily(id) => is_key_style_or_absent(style, id),
        StyleSetting::LooseKeyShowOutline(id) => is_key_style_or_absent(style, id),
        StyleSetting::LooseKeyOutlineWidth { id, .. } => is_key_style_or_absent(style, id),
        StyleSetting::LooseKeyBackgroundImage(id) => is_key_style_or_absent(style, id),
        StyleSetting::LooseKeyFontStyle { id, .. } => is_key_style_or_absent(style, id),
        StyleSetting::PressedKeyFontFamily(id) => is_key_style_or_absent(style, id),
        StyleSetting::PressedKeyShowOutline(id) => is_key_style_or_absent(style, id),
        StyleSetting::PressedKeyOutlineWidth { id, .. } => is_key_style_or_absent(style, id),
        StyleSetting::PressedKeyBackgroundImage(id) => is_key_style_or_absent(style, id),
        StyleSetting::PressedKeyFontStyle { id, .. } => is_key_style_or_absent(style, id),
        StyleSetting::MouseSpeedIndicatorOutlineWidth { id, .. } => is_indicator_style_or_absent(
            style,
            id,
        ),
        _ => true,
    }
}

/// The sub-style change and key state of a style setting that changes one state of a key
/// style (the layout-wide one, or an element's own), taking typed texts from the inputs.
pub open spec fn setting_key_change<F>(text: TextInputView, setting: StyleSetting) -> (
    KeyState,
    SubStyleChangeView<F>,
) {
    match setting {
        StyleSetting::DefaultLooseKeyFontFamily => (
            KeyState::Loose,
            SubStyleChangeView::FontFamily(text.value(TextInputType::DefaultLooseKeyFontFamily)),
        ),
        StyleSetting::DefaultLooseKeyShowOutline => (
            KeyState::Loose,
            SubStyleChangeView::ToggleShowOutline,
        ),
        StyleSetting::DefaultLooseKeyOutlineWidth(w) => (
            KeyState::Loose,
            SubStyleChangeView::OutlineWidth(w),
        ),
        StyleSetting::DefaultLooseKeyBackgroundImage => (
            KeyState::Loose,
            SubStyleChangeView::BackgroundImage(
                image_from_input(text.value(TextInputType::DefaultLooseKeyBackgroundImage)),
            ),
        ),
        StyleSetting::DefaultPressedKeyFontFamily => (
            KeyState::Pressed,
            SubStyleChangeView::FontFamily(text.value(TextInputType::DefaultPressedKeyFontFamily)),
        ),
        StyleSetting::DefaultPressedKeyShowOutline => (
            KeyState::Pressed,
            SubStyleChangeView::ToggleShowOutline,
        ),
        StyleSetting::DefaultPressedKeyOutlineWidth(w) => (
            KeyState::Pressed,
            SubStyleChangeView::OutlineWidth(w),
        ),
        StyleSetting::DefaultPressedKeyBackgroundImage => (
            KeyState::Pressed,
            SubStyleChangeView::BackgroundImage(
                image_from_input(text.value(TextInputType::DefaultPressedKeyBackgroundImage)),
            ),
        ),
        StyleSetting::LooseKeyFontFamily(id) => (
            KeyState::Loose,
            SubStyleChangeView::FontFamily(text.value(TextInputType::LooseFontFamily(id))),
        ),
        StyleSetting::LooseKeyShowOutline(_) => (
            KeyState::Loose,
            SubStyleChangeView::ToggleShowOutline,
        ),
        StyleSetting::LooseKeyOutlineWidth { width, .. } => (
            KeyState::Loose,
            SubStyleChangeView::OutlineWidth(width),
        ),
        StyleSetting::LooseKeyBackgroundImage(id) => (
            KeyState::Loose,
            SubStyleChangeView::BackgroundImage(
                image_from_input(text.value(TextInputType::LooseBackgroundImage(id))),
            ),
        ),
        StyleSetting::LooseKeyFontStyle { style, .. } => (
            KeyState::Loose,
            SubStyleChangeView::ToggleFontStyle(style),
        ),
        StyleSetting::PressedKeyFontFamily(id) => (
            KeyState::Pressed,
            SubStyleChangeView::FontFamily(text.value(TextInputType::PressedFontFamily(id))),
        ),
        StyleSetting::PressedKeyShowOutline(_) => (
            KeyState::Pressed,
            SubStyleChangeView::ToggleShowOutline,
        ),
        StyleSetting::PressedKeyOutlineWidth { width, .. } => (
            KeyState::Pressed,
            SubStyleChangeView::OutlineWidth(width),
        ),
        StyleSetting::PressedKeyBackgroundImage(id) => (
            KeyState::Pressed,
            SubStyleChangeView::BackgroundImage(
                image_from_input(text.value(TextInputType::PressedBackgroundImage(id))),
            ),
        ),
        StyleSetting::PressedKeyFontStyle { style, .. } => (
            KeyState::Pressed,
            SubStyleChangeView::ToggleFontStyle(style),
        ),
        _ => (KeyState::Loose, SubStyleChangeView::ToggleShowOutline),
    }
}

/// The style after a style setting, and the effects: a change to the layout-wide key style
/// draws everything again; a change to an element's style draws that element again (twice
/// over for a key, once for a mouse speed indicator); the layout-wide mouse speed indicator
/// outline draws the indicators again; the background image is rendered anew for the
/// category.
pub open spec fn style_setting_result<F>(
    style: StyleView<F>,
    text: TextInputView,
    category: Seq<char>,
    setting: StyleSetting,
) -> (StyleView<F>, Seq<EffectView<F>>) {
    let (state, change) = setting_key_change::<F>(text, setting);
    match setting {
        StyleSetting::DefaultMouseSpeedIndicatorOutlineWidth(w) => (
            spec_default_indicator_changed(style, IndicatorStyleChange::OutlineWidth(w)),
            seq![EffectView::<F>::Redraw(Redraw::MouseSpeedIndicators)],
        ),
        StyleSetting::KeyboardBackgroundImage => {
            let image = image_from_input(text.value(TextInputType::KeyboardBackgroundImage));
            (
                StyleView { background_image: image, ..style },
                seq![EffectView::<F>::RefreshBackgroundImage { category, file_name: image }],
            )
        },
        StyleSetting::MouseSpeedIndicatorOutlineWidth { id, width } => (
            spec_indicator_style_changed(style, id, IndicatorStyleChange::OutlineWidth(width)),
            redraw_id::<F>(id),
        ),
        StyleSetting::LooseKeyFontFamily(id) => (
            spec_key_style_changed(style, id, state, change),
            redraw_id::<F>(id) + redraw_id::<F>(id),
        ),
        StyleSetting::LooseKeyShowOutline(id) => (
            spec_key_style_changed(style, id, state, change),
            redraw_id::<F>(id) + redraw_id::<F>(id),
        ),
        StyleSetting::LooseKeyOutlineWidth { id, .. } => (
            spec_key_style_changed(style, id, state, change),
            redraw_id::<F>(id) + redraw_id::<F>(id),
        ),
        StyleSetting::LooseKeyBackgroundImage(id) => (
            spec_key_style_changed(style, id, state, change),
            redraw_id::<F>(id) + redraw_id::<F>(id),
        ),
        StyleSetting::LooseKeyFontStyle { id, .. } => (
            spec_key_style_changed(style, id, state, change),
            redraw_id::<F>(id) + redraw_id::<F>(id),
        ),
        StyleSetting::PressedKeyFontFamily(id) => (
            spec_key_style_changed(style, id, state, change),
            redraw_id::<F>(id) + redraw_id::<F>(id),
        ),
        StyleSetting::PressedKeyShowOutline(id) => (
            spec_key_style_changed(style, id, state, change),
            redraw_id::<F>(id) + redraw_id::<F>(id),
        ),
        StyleSetting::PressedKeyOutlineWidth { id, .. } => (
            spec_key_style_changed(style, id, state, change),
            redraw_id::<F>(id) + redraw_id::<F>(id),
        ),
        StyleSetting::PressedKeyBackgroundImage(id) => (
            spec_key_style_changed(style, id, state, change),
            redraw_id::<F>(id) + redraw_id::<F>(id),
        ),
        StyleSetting::PressedKeyFontStyle { id, .. } => (
            spec_key_style_changed(style, id, state, change),
            redraw_id::<F>(id) + redraw_id::<F>(id),
        ),
        _ => (spec_default_key_style_changed(style, state, change), redraw_all::<F>()),
    }
}

/// A color picker for one element's style can only apply to an element whose own style, if
/// it has one, is of its kind.
pub open spec fn color_picker_allowed<F>(style: StyleView<F>, picker: ColorPicker) -> bool {
    match picker {
        ColorPicker::LooseBackground(id) => is_key_style_or_absent(style, id),
        ColorPicker::LooseText(id) => is_key_style_or_absent(style, id),
        ColorPicker::LooseOutline(id) => is_key_style_or_absent(style, id),
        ColorPicker::PressedBackground(id) => is_key_style_or_absent(style, id),
        ColorPicker::PressedText(id) => is_key_style_or_absent(style, id),
        ColorPicker::PressedOutline(id) => is_key_style_or_absent(style, id),
        ColorPicker::MouseSpeedIndicator1(id) => is_indicator_style_or_absent(style, id),
        ColorPicker::MouseSpeedIndicator2(id) => is_indicator_style_or_absent(style, id),
        _ => true,
    }
}

/// The style after a color is picked, and the effects: a layout-wide color draws everything
/// again (but the window background); an element's color draws that element again.
pub open spec fn color_result<F>(style: StyleView<F>, picker: ColorPicker, color: NohRgb<F>) -> (
    StyleView<F>,
    Seq<EffectView<F>>,
) {
    match picker {
        ColorPicker::KeyboardBackground => (
            StyleView { background_color: color, ..style },
            Seq::empty(),
        ),
        ColorPicker::DefaultMouseSpeedIndicator1 => (
            spec_default_indicator_changed(style, IndicatorStyleChange::InnerColor(color)),
            redraw_all::<F>(),
        ),
        ColorPicker::DefaultMouseSpeedIndicator2 => (
            spec_default_indicator_changed(style, IndicatorStyleChange::OuterColor(color)),
            redraw_all::<F>(),
        ),
        ColorPicker::DefaultLooseBackground => (
            spec_default_key_style_changed(
                style,
                KeyState::Loose,
                SubStyleChangeView::Background(color),
            ),
            redraw_all::<F>(),
        ),
        ColorPicker::DefaultLooseText => (
            spec_default_key_style_changed(style, KeyState::Loose, SubStyleChangeView::Text(color)),
            redraw_all::<F>(),
        ),
        ColorPicker::DefaultLooseOutline => (
            spec_default_key_style_changed(
                style,
                KeyState::Loose,
                SubStyleChangeView::Outline(color),
            ),
            redraw_all::<F>(),
        ),
        ColorPicker::DefaultPressedBackground => (
            spec_default_key_style_changed(
                style,
                KeyState::Pressed,
                SubStyleChangeView::Background(color),
            ),
            redraw_all::<F>(),
        ),
        ColorPicker::DefaultPressedText => (
            spec_default_key_style_changed(
                style,
                KeyState::Pressed,
                SubStyleChangeView::Text(color),
            ),
            redraw_all::<F>(),
        ),
        ColorPicker::DefaultPressedOutline => (
            spec_default_key_style_changed(
                style,
                KeyState::Pressed,
                SubStyleChangeView::Outline(color),
            ),
            redraw_all::<F>(),
        ),
        ColorPicker::LooseBackground(id) => (
            spec_key_style_changed(style, id, KeyState::Loose, SubStyleChangeView::Background(color)),
            redraw_id::<F>(id),
        ),
        ColorPicker::LooseText(id) => (
            spec_key_style_changed(style, id, KeyState::Loose, SubStyleChangeView::Text(color)),
            redraw_id::<F>(id),
        ),
        ColorPicker::LooseOutline(id) => (
            spec_key_style_changed(style, id, KeyState::Loose, SubStyleChangeView::Outline(color)),
            redraw_id::<F>(id),
        ),
        ColorPicker::PressedBackground(id) => (
            spec_key_style_changed(
                style,
                id,
                KeyState::Pressed,
                SubStyleChangeView::Background(color),
            ),
            redraw_id::<F>(id),
        ),
        ColorPicker::PressedText(id) => (
            spec_key_style_changed(style, id, KeyState::Pressed, SubStyleChangeView::Text(color)),
            redraw_id::<F>(id),
        ),
        ColorPicker::PressedOutline(id) => (
            spec_key_style_changed(
                style,
                id,
                KeyState::Pressed,
                SubStyleChangeView::Outline(color),
            ),
            redraw_id::<F>(id),
        ),
        ColorPicker::MouseSpeedIndicator1(id) => (
            spec_indicator_style_changed(style, id, IndicatorStyleChange::InnerColor(color)),
            redraw_id::<F>(id),
        ),
        ColorPicker::MouseSpeedIndicator2(id) => (
            spec_indicator_style_changed(style, id, IndicatorStyleChange::OuterColor(color)),
            redraw_id::<F>(id),
        ),
    }
}

/// Every key other than `id` is drawn, loose and pressed, as before.
pub open spec fn other_keys_drawn_as_before<F>(old: StyleView<F>, new: StyleView<F>, id: u32) -> bool {
    forall|j: u32, pressed: bool|
        j != id ==> #[trigger] spec_key_sub_style(new, j, pressed) == spec_key_sub_style(
            old,
            j,
            pressed,
        )
}

/// Law: a picked color lands where its picker says. A key's loose (pressed) background, text
/// or outline picker changes exactly that color of the sub-style the key is drawn with when
/// loose (pressed); the key's other state, and every other key, are drawn as before. The
/// layout-wide pickers change that color of the layout-wide sub-style of their state and leave
/// the other state alone; the indicator pickers change the inner or outer color.
pub proof fn lemma_picked_colors_land_where_their_picker_says<F>(
    style: StyleView<F>,
    picker: ColorPicker,
    color: NohRgb<F>,
)
    requires
        color_picker_allowed(style, picker),
    ensures
        ({
            let new = color_result(style, picker, color).0;
            match picker {
                ColorPicker::KeyboardBackground => new.background_color == color,
                ColorPicker::LooseBackground(id) => {
                    &&& spec_key_sub_style(new, id, false) == (SubStyleView {
                        background: color,
                        ..spec_key_sub_style(style, id, false)
                    })
                    &&& spec_key_sub_style(new, id, true) == spec_key_sub_style(style, id, true)
                    &&& other_keys_drawn_as_before(style, new, id)
                },
                ColorPicker::LooseText(id) => {
                    &&& spec_key_sub_style(new, id, false) == (SubStyleView {
                        text: color,
                        ..spec_key_sub_style(style, id, false)
                    })
                    &&& spec_key_sub_style(new, id, true) == spec_key_sub_style(style, id, true)
                    &&& other_keys_drawn_as_before(style, new, id)
                },
                ColorPicker::LooseOutline(id) => {
                    &&& spec_key_sub_style(new, id, false) == (SubStyleView {
                        outline: color,
                        ..spec_key_sub_style(style, id, false)
                    })
                    &&& spec_key_sub_style(new, id, true) == spec_key_sub_style(style, id, true)
                    &&& other_keys_drawn_as_before(style, new, id)
                },
                ColorPicker::PressedBackground(id) => {
                    &&& spec_key_sub_style(new, id, true) == (SubStyleView {
                        background: color,
                        ..spec_key_sub_style(style, id, true)
                    })
                    &&& spec_key_sub_style(new, id, false) == spec_key_sub_style(style, id, false)
                    &&& other_keys_drawn_as_before(style, new, id)
                },
                ColorPicker::PressedText(id) => {
                    &&& spec_key_sub_style(new, id, true) == (SubStyleView {
                        text: color,
                        ..spec_key_sub_style(style, id, true)
                    })
                    &&& spec_key_sub_style(new, id, false) == spec_key_sub_style(style, id, false)
                    &&& other_keys_drawn_as_before(style, new, id)
                },
                ColorPicker::PressedOutline(id) => {
                    &&& spec_key_sub_style(new, id, true) == (SubStyleView {
                        outline: color,
                        ..spec_key_sub_style(style, id, true)
                    })
                    &&& spec_key_sub_style(new, id, false) == spec_key_sub_style(style, id, false)
                    &&& other_keys_drawn_as_before(style, new, id)
                },
                ColorPicker::DefaultLooseBackground => {
                    &&& new.default_loose == (SubStyleView {
                        background: color,
                        ..style.default_loose
                    })
                    &&& new.default_pressed == style.default_pressed
                },
                ColorPicker::DefaultLooseText => {
                    &&& new.default_loose == (SubStyleView { text: color, ..style.default_loose })
                    &&& new.default_pressed == style.default_pressed
                },
                ColorPicker::DefaultLooseOutline => {
                    &&& new.default_loose == (SubStyleView {
                        outline: color,
                        ..style.default_loose
                    })
                    &&& new.default_pressed == style.default_pressed
                },
                ColorPicker::DefaultPressedBackground => {
                    &&& new.default_pressed == (SubStyleView {
                        background: color,
                        ..style.default_pressed
                    })
                    &&& new.default_loose == style.default_loose
                },
                ColorPicker::DefaultPressedText => {
                    &&& new.default_pressed == (SubStyleView {
                        text: color,
                        ..style.default_pressed
                    })
                    &&& new.default_loose == style.default_loose
                },
                ColorPicker::DefaultPressedOutline => {
                    &&& new.default_pressed == (SubStyleView {
                        outline: color,
                        ..style.default_pressed
                    })
                    &&& new.default_loose == style.default_loose
                },
                ColorPicker::DefaultMouseSpeedIndicator1 => new.default_mouse_speed_indicator == (
                MouseSpeedIndicatorStyle { inner_color: color, ..style.default_mouse_speed_indicator }),
                ColorPicker::DefaultMouseSpeedIndicator2 => new.default_mouse_speed_indicator == (
                MouseSpeedIndicatorStyle { outer_color: color, ..style.default_mouse_speed_indicator }),
                ColorPicker::MouseSpeedIndicator1(id) => spec_indicator_style(new, id) == (
                MouseSpeedIndicatorStyle { inner_color: color, ..spec_indicator_style(style, id) }),
                ColorPicker::MouseSpeedIndicator2(id) => spec_indicator_style(new, id) == (
                MouseSpeedIndicatorStyle { outer_color: color, ..spec_indicator_style(style, id) }),
            }
        }),
{
}

fn one_effect<F>(e: Effect<F>) -> (effects: Vec<Effect<F>>)
    ensures
        effect_views(effects@) == seq![e@],
{
    let mut effects = Vec::new();
    effects.push(e);
    assert(effect_views(effects@) =~= seq![e@]);
    effects
}

fn redraw_id_twice<F>(id: u32) -> (effects: Vec<Effect<F>>)
    ensures
        effect_views(effects@) == redraw_id::<F>(id) + redraw_id::<F>(id),
{
    let mut effects = Vec::new();
    effects.push(Effect::Redraw(Redraw::Id(id)));
    effects.push(Effect::Redraw(Redraw::Id(id)));
    assert(effect_views(effects@) =~= redraw_id::<F>(id) + redraw_id::<F>(id));
    effects
}

/// The exec form of an image typed in a text input (see `image_from_input`).
fn image_input(s: String) -> (r: Option<String>)
    ensures
        opt_string_view(r) == image_from_input(s@),
{
    if s.as_str().unicode_len() == 0 {
        None
    } else {
        Some(s)
    }
}

/// The key state and sub-style change of a setting on a key style (see
/// `setting_key_change`).
fn key_change_of<F>(text: &TextInput, setting: StyleSetting) -> (r: (KeyState, SubStyleChange<F>))
    ensures
        (r.0, r.1@) == setting_key_change::<F>(text@, setting),
{
    match setting {
        StyleSetting::DefaultLooseKeyFontFamily => (
            KeyState::Loose,
            SubStyleChange::FontFamily(text.value(TextInputType::DefaultLooseKeyFontFamily)),
        ),
        StyleSetting::DefaultLooseKeyShowOutline => (
            KeyState::Loose,
            SubStyleChange::ToggleShowOutline,
        ),
        StyleSetting::DefaultLooseKeyOutlineWidth(w) => (
            KeyState::Loose,
            SubStyleChange::OutlineWidth(w),
        ),
        StyleSetting::DefaultLooseKeyBackgroundImage => (
            KeyState::Loose,
            SubStyleChange::BackgroundImage(
                image_input(text.value(TextInputType::DefaultLooseKeyBackgroundImage)),
            ),
        ),
        StyleSetting::DefaultPressedKeyFontFamily => (
            KeyState::Pressed,
            SubStyleChange::FontFamily(text.value(TextInputType::DefaultPressedKeyFontFamily)),
        ),
        StyleSetting::DefaultPressedKeyShowOutline => (
            KeyState::Pressed,
            SubStyleChange::ToggleShowOutline,
        ),
        StyleSetting::DefaultPressedKeyOutlineWidth(w) => (
            KeyState::Pressed,
            SubStyleChange::OutlineWidth(w),
        ),
        StyleSetting::DefaultPressedKeyBackgroundImage => (
            KeyState::Pressed,
            SubStyleChange::BackgroundImage(
                image_input(text.value(TextInputType::DefaultPressedKeyBackgroundImage)),
            ),
        ),
        StyleSetting::LooseKeyFontFamily(id) => (
            KeyState::Loose,
            SubStyleChange::FontFamily(text.value(TextInputType::LooseFontFamily(id))),
        ),
        StyleSetting::LooseKeyShowOutline(_) => (KeyState::Loose, SubStyleChange::ToggleShowOutline),
        StyleSetting::LooseKeyOutlineWidth { width, .. } => (
            KeyState::Loose,
            SubStyleChange::OutlineWidth(width),
        ),
        StyleSetting::LooseKeyBackgroundImage(id) => (
            KeyState::Loose,
            SubStyleChange::BackgroundImage(
                image_input(text.value(TextInputType::LooseBackgroundImage(id))),
            ),
        ),
        StyleSetting::LooseKeyFontStyle { style, .. } => (
            KeyState::Loose,
            SubStyleChange::ToggleFontStyle(style),
        ),
        StyleSetting::PressedKeyFontFamily(id) => (
            KeyState::Pressed,
            SubStyleChange::FontFamily(text.value(TextInputType::PressedFontFamily(id))),
        ),
        StyleSetting::PressedKeyShowOutline(_) => (
            KeyState::Pressed,
            SubStyleChange::ToggleShowOutline,
        ),
        StyleSetting::PressedKeyOutlineWidth { width, .. } => (
            KeyState::Pressed,
            SubStyleChange::OutlineWidth(width),
        ),
        StyleSetting::PressedKeyBackgroundImage(id) => (
            KeyState::Pressed,
            SubStyleChange::BackgroundImage(
                image_input(text.value(TextInputType::PressedBackgroundImage(id))),
            ),
        ),
        StyleSetting::PressedKeyFontStyle { style, .. } => (
            KeyState::Pressed,
            SubStyleChange::ToggleFontStyle(style),
        ),
        _ => (KeyState::Loose, SubStyleChange::ToggleShowOutline),
    }
}

/// Applies a style setting to a style (see `style_setting_result`), with the texts typed in
/// the style windows and the current category.
pub fn apply_style_setting<F: Copy>(
    style: &mut Style<F>,
    text: &TextInput,
    category: &String,
    setting: StyleSetting,
) -> (effects: Vec<Effect<F>>)
    requires
        style_setting_allowed(old(style)@, setting),
    ensures
        (final(style)@, effect_views(effects@)) == style_setting_result::<F>(
            old(style)@,
            text@,
            category@,
            setting,
        ),
{
    match setting {
        StyleSetting::DefaultMouseSpeedIndicatorOutlineWidth(w) => {
            style.change_default_indicator_style(IndicatorStyleChange::OutlineWidth(w));
            one_effect(Effect::Redraw(Redraw::MouseSpeedIndicators))
        },
        StyleSetting::KeyboardBackgroundImage => {
            let image = image_input(text.value(TextInputType::KeyboardBackgroundImage));
            let copy = match &image {
                Some(s) => Some(s.clone()),
                None => None,
            };
            style.set_background_image(image);
            one_effect(
                Effect::RefreshBackgroundImage { category: category.clone(), file_name: copy },
            )
        },
        StyleSetting::MouseSpeedIndicatorOutlineWidth { id, width } => {
            style.change_indicator_style(id, IndicatorStyleChange::OutlineWidth(width));
            one_effect(Effect::Redraw(Redraw::Id(id)))
        },
        StyleSetting::LooseKeyFontFamily(id) | StyleSetting::LooseKeyShowOutline(id)
        | StyleSetting::LooseKeyOutlineWidth { id, .. } | StyleSetting::LooseKeyBackgroundImage(id)
        | StyleSetting::LooseKeyFontStyle { id, .. } | StyleSetting::PressedKeyFontFamily(id)
        | StyleSetting::PressedKeyShowOutline(id) | StyleSetting::PressedKeyOutlineWidth { id, .. }
        | StyleSetting::PressedKeyBackgroundImage(id)
        | StyleSetting::PressedKeyFontStyle { id, .. } => {
            let (state, change) = key_change_of::<F>(text, setting);
            style.change_key_style(id, state, &change);
            redraw_id_twice(id)
        },
        _ => {
            let (state, change) = key_change_of::<F>(text, setting);
            style.change_default_key_style(state, &change);
            one_effect(Effect::Redraw(Redraw::All))
        },
    }
}

/// Applies a picked color to a style (see `color_result`).
pub fn apply_color<F: Copy>(style: &mut Style<F>, picker: ColorPicker, color: NohRgb<F>) -> (effects:
    Vec<Effect<F>>)
    requires
        color_picker_allowed(old(style)@, picker),
    ensures
        (final(style)@, effect_views(effects@)) == color_result::<F>(old(style)@, picker, color),
{
    match picker {
        ColorPicker::KeyboardBackground => {
            style.set_background_color(color);
            let effects = Vec::new();
            assert(effect_views(effects@) =~= Seq::<EffectView<F>>::empty());
            effects
        },
        ColorPicker::DefaultMouseSpeedIndicator1 => {
            style.change_default_indicator_style(IndicatorStyleChange::InnerColor(color));
            one_effect(Effect::Redraw(Redraw::All))
        },
        ColorPicker::DefaultMouseSpeedIndicator2 => {
            style.change_default_indicator_style(IndicatorStyleChange::OuterColor(color));
            one_effect(Effect::Redraw(Redraw::All))
        },
        ColorPicker::DefaultLooseBackground => {
            style.change_default_key_style(KeyState::Loose, &SubStyleChange::Background(color));
            one_effect(Effect::Redraw(Redraw::All))
        },
        ColorPicker::DefaultLooseText => {
            style.change_default_key_style(KeyState::Loose, &SubStyleChange::Text(color));
            one_effect(Effect::Redraw(Redraw::All))
        },
        ColorPicker::DefaultLooseOutline => {
            style.change_default_key_style(KeyState::Loose, &SubStyleChange::Outline(color));
            one_effect(Effect::Redraw(Redraw::All))
        },
        ColorPicker::DefaultPressedBackground => {
            style.change_default_key_style(KeyState::Pressed, &SubStyleChange::Background(color));
            one_effect(Effect::Redraw(Redraw::All))
        },
        ColorPicker::DefaultPressedText => {
            style.change_default_key_style(KeyState::Pressed, &SubStyleChange::Text(color));
            one_effect(Effect::Redraw(Redraw::All))
        },
        ColorPicker::DefaultPressedOutline => {
            style.change_default_key_style(KeyState::Pressed, &SubStyleChange::Outline(color));
            one_effect(Effect::Redraw(Redraw::All))
        },
        ColorPicker::LooseBackground(id) => {
            style.change_key_style(id, KeyState::Loose, &SubStyleChange::Background(color));
            one_effect(Effect::Redraw(Redraw::Id(id)))
        },
        ColorPicker::LooseText(id) => {
            style.change_key_style(id, KeyState::Loose, &SubStyleChange::Text(color));
            one_effect(Effect::Redraw(Redraw::Id(id)))
        },
        ColorPicker::LooseOutline(id) => {
            style.change_key_style(id, KeyState::Loose, &SubStyleChange::Outline(color));
            one_effect(Effect::Redraw(Redraw::Id(id)))
        },
        ColorPicker::PressedBackground(id) => {
            style.change_key_style(id, KeyState::Pressed, &SubStyleChange::Background(color));
            one_effect(Effect::Redraw(Redraw::Id(id)))
        },
        ColorPicker::PressedText(id) => {
            style.change_key_style(id, KeyState::Pressed, &SubStyleChange::Text(color));
            one_effect(Effect::Redraw(Redraw::Id(id)))
        },
        ColorPicker::PressedOutline(id) => {
            style.change_key_style(id, KeyState::Pressed, &SubStyleChange::Outline(color));
            one_effect(Effect::Redraw(Redraw::Id(id)))
        },
        ColorPicker::MouseSpeedIndicator1(id) => {
            style.change_indicator_style(id, IndicatorStyleChange::InnerColor(color));
            one_effect(Effect::Redraw(Redraw::Id(id)))
        },
        ColorPicker::MouseSpeedIndicator2(id) => {
            style.change_indicator_style(id, IndicatorStyleChange::OuterColor(color));
            one_effect(Effect::Redraw(Redraw::Id(id)))
        },
    }
}

impl<F: Copy> NuhxBoard<F> {
    /// Applies a change made in the style windows (see `style_setting_result`); the style has
    /// unsaved changes.
    pub fn change_style(&mut self, setting: StyleSetting) -> (effects: Vec<Effect<F>>)
        requires
            style_setting_allowed(old(self)@.style, setting),
        ensures
            ({
                let (style, e) = style_setting_result::<F>(
                    old(self)@.style,
                    old(self)@.text_input,
                    old(self)@.settings.category,
                    setting,
                );
                &&& final(self)@ == (BoardView { style, style_commited: false, ..old(self)@ })
                &&& effect_views(effects@) == e
            }),
    {
        let effects = apply_style_setting(
            &mut self.style,
            &self.text_input,
            &self.settings.category,
            setting,
        );
        self.style_commited = false;
        effects
    }

    /// A color is picked: its picker closes or opens, the color applies (see
    /// `color_result`), and the style has unsaved changes.
    pub fn change_color(&mut self, picker: ColorPicker, color: NohRgb<F>) -> (effects: Vec<
        Effect<F>,
    >)
        requires
            color_picker_allowed(old(self)@.style, picker),
        ensures
            ({
                let (style, e) = color_result::<F>(old(self)@.style, picker, color);
                &&& final(self)@ == (BoardView {
                    style,
                    color_pickers: old(self)@.color_pickers.set(
                        picker,
                        !old(self)@.color_pickers.state(picker),
                    ),
                    style_commited: false,
                    ..old(self)@
                })
                &&& effect_views(effects@) == e
            }),
    {
        self.color_pickers.toggle(picker);
        let effects = apply_color(&mut self.style, picker, color);
        self.style_commited = false;
        effects
    }
}

} // verus!
