use vstd::prelude::*;
use std::collections::HashMap;

verus! {

broadcast use vstd::std_specs::hash::group_hash_axioms;

/// A color, in NohBoard's 0-255 scale. `F` is the scalar type (a float in the application).
#[derive(PartialEq, Eq, Structural, Clone, Copy, Debug)]
pub struct NohRgb<F> {
    pub red: F,
    pub green: F,
    pub blue: F,
}

/// Bold, italic, underline and strikethrough flags of a font, as the low four bits of a byte.
#[derive(PartialEq, Eq, Structural, Clone, Copy, Debug)]
pub struct FontStyle {
    pub bits: u8,
}

impl FontStyle {
    pub open spec fn spec_bits(self) -> u8 {
        self.bits
    }

    /// The flags that are defined: the low four bits.
    pub open spec fn all_bits() -> u8 {
        0b1111u8
    }

    /// No flag set.
    pub fn empty() -> (s: FontStyle)
        ensures
            s.spec_bits() == 0,
    {
        FontStyle { bits: 0 }
    }

    pub fn bold() -> (s: FontStyle)
        ensures
            s.spec_bits() == 0b0001,
    {
        FontStyle { bits: 0b0001 }
    }

    pub fn italic() -> (s: FontStyle)
        ensures
            s.spec_bits() == 0b0010,
    {
        FontStyle { bits: 0b0010 }
    }

    pub fn underline() -> (s: FontStyle)
        ensures
            s.spec_bits() == 0b0100,
    {
        FontStyle { bits: 0b0100 }
    }

    pub fn strikethrough() -> (s: FontStyle)
        ensures
            s.spec_bits() == 0b1000,
    {
        FontStyle { bits: 0b1000 }
    }

    /// The raw flag bits.
    pub fn bits(&self) -> (b: u8)
        ensures
            b == self.spec_bits(),
    {
        self.bits
    }

    /// The flags with these bits, or `None` if a bit outside the defined flags is set (a style
    /// file with such a value is refused).
    pub fn from_bits(bits: u8) -> (s: Option<FontStyle>)
        ensures
            match s {
                Some(f) => bits & !Self::all_bits() == 0 && f.spec_bits() == bits,
                None => bits & !Self::all_bits() != 0,
            },
    {
        if bits & !0b1111u8 == 0 {
            Some(FontStyle { bits })
        } else {
            None
        }
    }

    /// Whether every flag of `other` is set.
    pub fn contains(&self, other: FontStyle) -> (r: bool)
        ensures
            r == (self.spec_bits() & other.spec_bits() == other.spec_bits()),
    {
        self.bits & other.bits == other.bits
    }

    /// Flips the flags of `other`.
    pub fn toggle(&mut self, other: FontStyle)
        ensures
            final(self).spec_bits() == old(self).spec_bits() ^ other.spec_bits(),
    {
        self.bits = self.bits ^ other.bits;
    }
}

/// A font: family name, size, and flags.
pub struct Font<F> {
    pub font_family: String,
    pub size: F,
    pub style: FontStyle,
}

/// How a key looks in one state (loose or pressed).
pub struct KeySubStyle<F> {
    pub background: NohRgb<F>,
    pub text: NohRgb<F>,
    pub outline: NohRgb<F>,
    pub show_outline: bool,
    /// Outline thickness in pixels.
    pub outline_width: u32,
    pub font: Font<F>,
    pub background_image_file_name: Option<String>,
}

/// The layout-wide key style: both states are given.
pub struct DefaultKeyStyle<F> {
    pub loose: KeySubStyle<F>,
    pub pressed: KeySubStyle<F>,
}

/// The style of one key; a missing state falls back on the default key style.
pub struct KeyStyle<F> {
    pub loose: Option<KeySubStyle<F>>,
    pub pressed: Option<KeySubStyle<F>>,
}

/// How a mouse speed indicator looks.
#[derive(PartialEq, Eq, Structural, Clone, Copy, Debug)]
pub struct MouseSpeedIndicatorStyle<F> {
    pub inner_color: NohRgb<F>,
    pub outer_color: NohRgb<F>,
    pub outline_width: u32,
}

/// The style of one element, by element id.
pub enum ElementStyle<F> {
    KeyStyle(KeyStyle<F>),
    MouseSpeedIndicatorStyle(MouseSpeedIndicatorStyle<F>),
}

/// A keyboard style: colors, fonts and images, with per-element overrides.
pub struct Style<F> {
    /// Background color of the window. Overridden by the background image if present.
    pub background_color: NohRgb<F>,
    pub background_image_file_name: Option<String>,
    pub default_key_style: DefaultKeyStyle<F>,
    pub default_mouse_speed_indicator_style: MouseSpeedIndicatorStyle<F>,
    pub element_styles: HashMap<u32, ElementStyle<F>>,
}

/// Model of a key sub-style.
pub struct SubStyleView<F> {
    pub background: NohRgb<F>,
    pub text: NohRgb<F>,
    pub outline: NohRgb<F>,
    pub show_outline: bool,
    pub outline_width: u32,
    pub font_family: Seq<char>,
    pub font_size: F,
    pub font_style: FontStyle,
    pub background_image: Option<Seq<char>>,
}

/// Model of a key style.
pub struct KeyStyleView<F> {
    pub loose: Option<SubStyleView<F>>,
    pub pressed: Option<SubStyleView<F>>,
}

/// Model of an element style.
pub enum ElementStyleView<F> {
    Key(KeyStyleView<F>),
    MouseSpeedIndicator(MouseSpeedIndicatorStyle<F>),
}

/// Model of a style.
pub struct StyleView<F> {
    pub background_color: NohRgb<F>,
    pub background_image: Option<Seq<char>>,
    pub default_loose: SubStyleView<F>,
    pub default_pressed: SubStyleView<F>,
    pub default_mouse_speed_indicator: MouseSpeedIndicatorStyle<F>,
    pub element_styles: Map<u32, ElementStyleView<F>>,
}

pub open spec fn opt_string_view(s: Option<String>) -> Option<Seq<char>> {
    match s {
        Some(s) => Some(s@),
        None => None,
    }
}

impl<F> View for KeySubStyle<F> {
    type V = SubStyleView<F>;

    open spec fn view(&self) -> SubStyleView<F> {
        SubStyleView {
            background: self.background,
            text: self.text,
            outline: self.outline,
            show_outline: self.show_outline,
            outline_width: self.outline_width,
            font_family: self.font.font_family@,
            font_size: self.font.size,
            font_style: self.font.style,
            background_image: opt_string_view(self.background_image_file_name),
        }
    }
}

pub open spec fn opt_sub_view<F>(s: Option<KeySubStyle<F>>) -> Option<SubStyleView<F>> {
    match s {
        Some(s) => Some(s@),
        None => None,
    }
}

impl<F> View for KeyStyle<F> {
    type V = KeyStyleView<F>;

    open spec fn view(&self) -> KeyStyleView<F> {
        KeyStyleView { loose: opt_sub_view(self.loose), pressed: opt_sub_view(self.pressed) }
    }
}

impl<F> View for ElementStyle<F> {
    type V = ElementStyleView<F>;

    open spec fn view(&self) -> ElementStyleView<F> {
        match self {
            ElementStyle::KeyStyle(k) => ElementStyleView::Key(k@),
            ElementStyle::MouseSpeedIndicatorStyle(m) => ElementStyleView::MouseSpeedIndicator(*m),
        }
    }
}

impl<F> View for Style<F> {
    type V = StyleView<F>;

    closed spec fn view(&self) -> StyleView<F> {
        StyleView {
            background_color: self.background_color,
            background_image: opt_string_view(self.background_image_file_name),
            default_loose: self.default_key_style.loose@,
            default_pressed: self.default_key_style.pressed@,
            default_mouse_speed_indicator: self.default_mouse_speed_indicator_style,
            element_styles: self.element_styles@.map_values(|e: ElementStyle<F>| e@),
        }
    }
}

pub proof fn lemma_map_values_insert<K, V, W>(m: Map<K, V>, k: K, v: V, f: spec_fn(V) -> W)
    ensures
        m.insert(k, v).map_values(f) == m.map_values(f).insert(k, f(v)),
{
    assert(m.insert(k, v).map_values(f) =~= m.map_values(f).insert(k, f(v)));
}

/// A copy of an optional string.
pub fn duplicate_opt_string(s: &Option<String>) -> (r: Option<String>)
    ensures
        opt_string_view(r) == opt_string_view(*s),
{
    match s {
        Some(s) => Some(s.clone()),
        None => None,
    }
}

impl<F: Copy> KeySubStyle<F> {
    /// A copy of the sub-style.
    pub fn duplicate(&self) -> (r: KeySubStyle<F>)
        ensures
            r@ == self@,
    {
        KeySubStyle {
            background: self.background,
            text: self.text,
            outline: self.outline,
            show_outline: self.show_outline,
            outline_width: self.outline_width,
            font: Font {
                font_family: self.font.font_family.clone(),
                size: self.font.size,
                style: self.font.style,
            },
            background_image_file_name: duplicate_opt_string(&self.background_image_file_name),
        }
    }
}

impl<F: Copy> KeyStyle<F> {
    /// A copy of the key style.
    pub fn duplicate(&self) -> (r: KeyStyle<F>)
        ensures
            r@ == self@,
    {
        KeyStyle {
            loose: match &self.loose {
                Some(s) => Some(s.duplicate()),
                None => None,
            },
            pressed: match &self.pressed {
                Some(s) => Some(s.duplicate()),
                None => None,
            },
        }
    }
}

impl<F: Copy> DefaultKeyStyle<F> {
    /// The default key style as a key style, with both states given.
    pub fn to_key_style(&self) -> (r: KeyStyle<F>)
        ensures
            r@ == (KeyStyleView { loose: Some(self.loose@), pressed: Some(self.pressed@) }),
    {
        KeyStyle { loose: Some(self.loose.duplicate()), pressed: Some(self.pressed.duplicate()) }
    }
}

impl<F: Copy> ElementStyle<F> {
    /// The key style, if this is one.
    pub fn as_key_style(&self) -> (r: Option<&KeyStyle<F>>)
        ensures
            match self@ {
                ElementStyleView::Key(k) => r is Some && r->Some_0@ == k,
                _ => r is None,
            },
    {
        match self {
            ElementStyle::KeyStyle(k) => Some(k),
            _ => None,
        }
    }

    /// The mouse speed indicator style, if this is one.
    pub fn as_mouse_speed_indicator_style(&self) -> (r: Option<&MouseSpeedIndicatorStyle<F>>)
        ensures
            match self@ {
                ElementStyleView::MouseSpeedIndicator(m) => r == Some(&m),
                _ => r is None,
            },
    {
        match self {
            ElementStyle::MouseSpeedIndicatorStyle(m) => Some(m),
            _ => None,
        }
    }
}

/// The state of a key a style change is about.
#[derive(PartialEq, Eq, Structural, Clone, Copy, Debug)]
pub enum KeyState {
    Loose,
    Pressed,
}

/// A change to one property of a key sub-style.
pub enum SubStyleChange<F> {
    Background(NohRgb<F>),
    Text(NohRgb<F>),
    Outline(NohRgb<F>),
    FontFamily(String),
    ToggleShowOutline,
    OutlineWidth(u32),
    BackgroundImage(Option<String>),
    ToggleFontStyle(FontStyle),
}

/// Model of a sub-style change.
pub enum SubStyleChangeView<F> {
    Background(NohRgb<F>),
    Text(NohRgb<F>),
    Outline(NohRgb<F>),
    FontFamily(Seq<char>),
    ToggleShowOutline,
    OutlineWidth(u32),
    BackgroundImage(Option<Seq<char>>),
    ToggleFontStyle(FontStyle),
}

impl<F> View for SubStyleChange<F> {
    type V = SubStyleChangeView<F>;

    open spec fn view(&self) -> SubStyleChangeView<F> {
        match self {
            SubStyleChange::Background(v) => SubStyleChangeView::Background(*v),
            SubStyleChange::Text(v) => SubStyleChangeView::Text(*v),
            SubStyleChange::Outline(v) => SubStyleChangeView::Outline(*v),
            SubStyleChange::FontFamily(f) => SubStyleChangeView::FontFamily(f@),
            SubStyleChange::ToggleShowOutline => SubStyleChangeView::ToggleShowOutline,
            SubStyleChange::OutlineWidth(w) => SubStyleChangeView::OutlineWidth(*w),
            SubStyleChange::BackgroundImage(i) => SubStyleChangeView::BackgroundImage(
                opt_string_view(*i),
            ),
            SubStyleChange::ToggleFontStyle(f) => SubStyleChangeView::ToggleFontStyle(*f),
        }
    }
}

/// A sub-style after a change.
pub open spec fn spec_apply_sub_change<F>(s: SubStyleView<F>, c: SubStyleChangeView<F>) -> SubStyleView<
    F,
> {
    match c {
        SubStyleChangeView::Background(v) => SubStyleView { background: v, ..s },
        SubStyleChangeView::Text(v) => SubStyleView { text: v, ..s },
        SubStyleChangeView::Outline(v) => SubStyleView { outline: v, ..s },
        SubStyleChangeView::FontFamily(f) => SubStyleView { font_family: f, ..s },
        SubStyleChangeView::ToggleShowOutline => SubStyleView {
            show_outline: !s.show_outline,
            ..s
        },
        SubStyleChangeView::OutlineWidth(w) => SubStyleView { outline_width: w, ..s },
        SubStyleChangeView::BackgroundImage(i) => SubStyleView { background_image: i, ..s },
        SubStyleChangeView::ToggleFontStyle(f) => SubStyleView {
            font_style: FontStyle { bits: s.font_style.spec_bits() ^ f.spec_bits() },
            ..s
        },
    }
}

impl<F: Copy> KeySubStyle<F> {
    /// Applies a change to the sub-style.
    pub fn apply(&mut self, change: &SubStyleChange<F>)
        ensures
            final(self)@ == spec_apply_sub_change(old(self)@, change@),
    {
        match change {
            SubStyleChange::Background(v) => self.background = *v,
            SubStyleChange::Text(v) => self.text = *v,
            SubStyleChange::Outline(v) => self.outline = *v,
            SubStyleChange::FontFamily(f) => self.font.font_family = f.clone(),
            SubStyleChange::ToggleShowOutline => self.show_outline = !self.show_outline,
            SubStyleChange::OutlineWidth(w) => self.outline_width = *w,
            SubStyleChange::BackgroundImage(i) => self.background_image_file_name =
                duplicate_opt_string(i),
            SubStyleChange::ToggleFontStyle(f) => self.font.style.toggle(*f),
        }
    }
}

/// A change to one property of a mouse speed indicator style.
#[derive(PartialEq, Eq, Structural, Clone, Copy, Debug)]
pub enum IndicatorStyleChange<F> {
    InnerColor(NohRgb<F>),
    OuterColor(NohRgb<F>),
    OutlineWidth(u32),
}

pub open spec fn spec_apply_indicator_change<F>(
    s: MouseSpeedIndicatorStyle<F>,
    c: IndicatorStyleChange<F>,
) -> MouseSpeedIndicatorStyle<F> {
    match c {
        IndicatorStyleChange::InnerColor(v) => MouseSpeedIndicatorStyle { inner_color: v, ..s },
        IndicatorStyleChange::OuterColor(v) => MouseSpeedIndicatorStyle { outer_color: v, ..s },
        IndicatorStyleChange::OutlineWidth(w) => MouseSpeedIndicatorStyle { outline_width: w, ..s },
    }
}

/// Whether the element style of `id`, if there is one, is a key style.
pub open spec fn is_key_style_or_absent<F>(s: StyleView<F>, id: u32) -> bool {
    s.element_styles.contains_key(id) ==> s.element_styles[id] is Key
}

/// Whether the element style of `id`, if there is one, is a mouse speed indicator style.
pub open spec fn is_indicator_style_or_absent<F>(s: StyleView<F>, id: u32) -> bool {
    s.element_styles.contains_key(id) ==> s.element_styles[id] is MouseSpeedIndicator
}

/// The style of the key `id` after a change to one of its states: the change applies to the
/// key's own sub-style for that state, or to a copy of the default if it has none; a key
/// without a style of its own first gets a copy of the default key style.
pub open spec fn spec_key_style_changed<F>(
    s: StyleView<F>,
    id: u32,
    state: KeyState,
    c: SubStyleChangeView<F>,
) -> StyleView<F> {
    let base = if s.element_styles.contains_key(id) {
        s.element_styles[id]->Key_0
    } else {
        KeyStyleView { loose: Some(s.default_loose), pressed: Some(s.default_pressed) }
    };
    let new_key = match state {
        KeyState::Loose => KeyStyleView {
            loose: Some(
                spec_apply_sub_change(
                    match base.loose {
                        Some(l) => l,
                        None => s.default_loose,
                    },
                    c,
                ),
            ),
            ..base
        },
        KeyState::Pressed => KeyStyleView {
            pressed: Some(
                spec_apply_sub_change(
                    match base.pressed {
                        Some(p) => p,
                        None => s.default_pressed,
                    },
                    c,
                ),
            ),
            ..base
        },
    };
    StyleView { element_styles: s.element_styles.insert(id, ElementStyleView::Key(new_key)), ..s }
}

/// The style of the mouse speed indicator `id` after a change: the change applies to its own
/// style, or to a copy of the default indicator style if it has none.
pub open spec fn spec_indicator_style_changed<F>(
    s: StyleView<F>,
    id: u32,
    c: IndicatorStyleChange<F>,
) -> StyleView<F> {
    let base = if s.element_styles.contains_key(id) {
        s.element_styles[id]->MouseSpeedIndicator_0
    } else {
        s.default_mouse_speed_indicator
    };
    StyleView {
        element_styles: s.element_styles.insert(
            id,
            ElementStyleView::MouseSpeedIndicator(spec_apply_indicator_change(base, c)),
        ),
        ..s
    }
}

/// The style after a change to one state of the layout-wide key style.
pub open spec fn spec_default_key_style_changed<F>(
    s: StyleView<F>,
    state: KeyState,
    c: SubStyleChangeView<F>,
) -> StyleView<F> {
    match state {
        KeyState::Loose => StyleView {
            default_loose: spec_apply_sub_change(s.default_loose, c),
            ..s
        },
        KeyState::Pressed => StyleView {
            default_pressed: spec_apply_sub_change(s.default_pressed, c),
            ..s
        },
    }
}

/// The style after a change to the layout-wide mouse speed indicator style.
pub open spec fn spec_default_indicator_changed<F>(
    s: StyleView<F>,
    c: IndicatorStyleChange<F>,
) -> StyleView<F> {
    StyleView {
        default_mouse_speed_indicator: spec_apply_indicator_change(s.default_mouse_speed_indicator, c),
        ..s
    }
}

/// A style with the layout-wide parts of `s` and no per-element styles.
pub open spec fn spec_without_element_styles<F>(s: StyleView<F>) -> StyleView<F> {
    StyleView { element_styles: Map::empty(), ..s }
}

impl<F: Copy> Style<F> {
    /// A copy of the layout-wide parts of the style, with no per-element styles.
    pub fn without_element_styles(&self) -> (r: Style<F>)
        ensures
            r@ == spec_without_element_styles(self@),
    {
        let r = Style {
            background_color: self.background_color,
            background_image_file_name: duplicate_opt_string(&self.background_image_file_name),
            default_key_style: DefaultKeyStyle {
                loose: self.default_key_style.loose.duplicate(),
                pressed: self.default_key_style.pressed.duplicate(),
            },
            default_mouse_speed_indicator_style: self.default_mouse_speed_indicator_style,
            element_styles: HashMap::new(),
        };
        assert(r@.element_styles =~= Map::empty());
        r
    }

    /// Changes one state of the layout-wide key style.
    pub fn change_default_key_style(&mut self, state: KeyState, change: &SubStyleChange<F>)
        ensures
            final(self)@ == spec_default_key_style_changed(old(self)@, state, change@),
    {
        match state {
            KeyState::Loose => self.default_key_style.loose.apply(change),
            KeyState::Pressed => self.default_key_style.pressed.apply(change),
        }
    }

    /// Changes the layout-wide mouse speed indicator style.
    pub fn change_default_indicator_style(&mut self, change: IndicatorStyleChange<F>)
        ensures
            final(self)@ == spec_default_indicator_changed(old(self)@, change),
    {
        match change {
            IndicatorStyleChange::InnerColor(v) => self.default_mouse_speed_indicator_style.inner_color = v,
            IndicatorStyleChange::OuterColor(v) => self.default_mouse_speed_indicator_style.outer_color = v,
            IndicatorStyleChange::OutlineWidth(w) => self.default_mouse_speed_indicator_style.outline_width = w,
        }
    }

    /// Sets the background color of the window.
    pub fn set_background_color(&mut self, color: NohRgb<F>)
        ensures
            final(self)@ == (StyleView { background_color: color, ..old(self)@ }),
    {
        self.background_color = color;
    }

    /// Sets (or removes) the background image of the window.
    pub fn set_background_image(&mut self, image: Option<String>)
        ensures
            final(self)@ == (StyleView { background_image: opt_string_view(image), ..old(self)@ }),
    {
        self.background_image_file_name = image;
    }

    /// The background image of the window, if any.
    pub fn background_image(&self) -> (r: Option<String>)
        ensures
            opt_string_view(r) == self@.background_image,
    {
        duplicate_opt_string(&self.background_image_file_name)
    }

    /// The background image of one state of the layout-wide key style, if any.
    pub fn default_key_background_image(&self, state: KeyState) -> (r: Option<String>)
        ensures
            opt_string_view(r) == match state {
                KeyState::Loose => self@.default_loose.background_image,
                KeyState::Pressed => self@.default_pressed.background_image,
            },
    {
        match state {
            KeyState::Loose => duplicate_opt_string(&self.default_key_style.loose.background_image_file_name),
            KeyState::Pressed => duplicate_opt_string(
                &self.default_key_style.pressed.background_image_file_name,
            ),
        }
    }

    /// Changes one state of the key `id`'s own style (see `spec_key_style_changed`).
    pub fn change_key_style(&mut self, id: u32, state: KeyState, change: &SubStyleChange<F>)
        requires
            is_key_style_or_absent(old(self)@, id),
        ensures
            final(self)@ == spec_key_style_changed(old(self)@, id, state, change@),
    {
        let mut key_style = match self.element_styles.get(&id) {
            Some(ElementStyle::KeyStyle(k)) => k.duplicate(),
            _ => self.default_key_style.to_key_style(),
        };
        match state {
            KeyState::Loose => {
                let mut sub = match &key_style.loose {
                    Some(l) => l.duplicate(),
                    None => self.default_key_style.loose.duplicate(),
                };
                sub.apply(change);
                key_style.loose = Some(sub);
            },
            KeyState::Pressed => {
                let mut sub = match &key_style.pressed {
                    Some(p) => p.duplicate(),
                    None => self.default_key_style.pressed.duplicate(),
                };
                sub.apply(change);
                key_style.pressed = Some(sub);
            },
        }
        let new_style = ElementStyle::KeyStyle(key_style);
        proof {
            lemma_map_values_insert(
                self.element_styles@,
                id,
                new_style,
                |e: ElementStyle<F>| e@,
            );
        }
        self.element_styles.insert(id, new_style);
    }

    /// Changes the mouse speed indicator `id`'s own style (see
    /// `spec_indicator_style_changed`).
    pub fn change_indicator_style(&mut self, id: u32, change: IndicatorStyleChange<F>)
        requires
            is_indicator_style_or_absent(old(self)@, id),
        ensures
            final(self)@ == spec_indicator_style_changed(old(self)@, id, change),
    {
        let mut indicator = match self.element_styles.get(&id) {
            Some(ElementStyle::MouseSpeedIndicatorStyle(m)) => *m,
            _ => self.default_mouse_speed_indicator_style,
        };
        match change {
            IndicatorStyleChange::InnerColor(v) => indicator.inner_color = v,
            IndicatorStyleChange::OuterColor(v) => indicator.outer_color = v,
            IndicatorStyleChange::OutlineWidth(w) => indicator.outline_width = w,
        }
        let new_style = ElementStyle::MouseSpeedIndicatorStyle(indicator);
        proof {
            lemma_map_values_insert(
                self.element_styles@,
                id,
                new_style,
                |e: ElementStyle<F>| e@,
            );
        }
        self.element_styles.insert(id, new_style);
    }
}

/// The sub-style a key is drawn with: its own style's sub-style for its state, or the
/// layout-wide one when it has no style of its own or none for that state.
pub open spec fn spec_key_sub_style<F>(s: StyleView<F>, id: u32, pressed: bool) -> SubStyleView<F> {
    let own = if s.element_styles.contains_key(id) {
        let k = s.element_styles[id]->Key_0;
        if pressed {
            k.pressed
        } else {
            k.loose
        }
    } else {
        None
    };
    match own {
        Some(sub) => sub,
        None => if pressed {
            s.default_pressed
        } else {
            s.default_loose
        },
    }
}

/// Law: a key is drawn with its own sub-style for its state (pressed or loose) when it has one,
/// and with the layout-wide sub-style for that state otherwise; so a pressed key whose own
/// pressed and loose sub-styles differ looks different from when it is loose.
pub proof fn lemma_keys_are_drawn_with_the_sub_style_of_their_state<F>(s: StyleView<F>, id: u32)
    requires
        is_key_style_or_absent(s, id),
    ensures
        s.element_styles.contains_key(id) ==> (s.element_styles[id]->Key_0.pressed matches Some(p)
            ==> spec_key_sub_style(s, id, true) == p),
        s.element_styles.contains_key(id) ==> (s.element_styles[id]->Key_0.loose matches Some(l)
            ==> spec_key_sub_style(s, id, false) == l),
        !(s.element_styles.contains_key(id) && s.element_styles[id]->Key_0.pressed is Some)
            ==> spec_key_sub_style(s, id, true) == s.default_pressed,
        !(s.element_styles.contains_key(id) && s.element_styles[id]->Key_0.loose is Some)
            ==> spec_key_sub_style(s, id, false) == s.default_loose,
        s.element_styles.contains_key(id) ==> (s.element_styles[id]->Key_0 matches KeyStyleView {
            pressed: Some(p),
            loose: Some(l),
        } ==> (p != l ==> spec_key_sub_style(s, id, true) != spec_key_sub_style(s, id, false))),
{
}

/// The style a mouse speed indicator is drawn with: its own, or the layout-wide one.
pub open spec fn spec_indicator_style<F>(s: StyleView<F>, id: u32) -> MouseSpeedIndicatorStyle<F> {
    if s.element_styles.contains_key(id) {
        s.element_styles[id]->MouseSpeedIndicator_0
    } else {
        s.default_mouse_speed_indicator
    }
}

impl<F: Copy> Style<F> {
    /// The sub-style the key `id` is drawn with in a state (see `spec_key_sub_style`).
    pub fn key_sub_style(&self, id: u32, pressed: bool) -> (r: &KeySubStyle<F>)
        requires
            is_key_style_or_absent(self@, id),
        ensures
            r@ == spec_key_sub_style(self@, id, pressed),
            pressed && self@.element_styles.contains_key(id) ==> (
            self@.element_styles[id]->Key_0.pressed matches Some(p) ==> r@ == p),
            !pressed && self@.element_styles.contains_key(id) ==> (
            self@.element_styles[id]->Key_0.loose matches Some(l) ==> r@ == l),
    {
        proof {
            lemma_keys_are_drawn_with_the_sub_style_of_their_state(self@, id);
        }
        let own = match self.element_styles.get(&id) {
            Some(ElementStyle::KeyStyle(k)) => if pressed {
                k.pressed.as_ref()
            } else {
                k.loose.as_ref()
            },
            _ => None,
        };
        match own {
            Some(sub) => sub,
            None => if pressed {
                &self.default_key_style.pressed
            } else {
                &self.default_key_style.loose
            },
        }
    }

    /// Whether the element `id` has a style of its own, and if so whether it is a key style.
    pub fn element_style_is_key(&self, id: u32) -> (r: Option<bool>)
        ensures
            match r {
                Some(k) => self@.element_styles.contains_key(id) && k == (self@.element_styles[id] is Key),
                None => !self@.element_styles.contains_key(id),
            },
    {
        match self.element_styles.get(&id) {
            Some(ElementStyle::KeyStyle(_)) => Some(true),
            Some(ElementStyle::MouseSpeedIndicatorStyle(_)) => Some(false),
            None => None,
        }
    }

    /// Whether the element `id` has no style of its own, or a key style.
    pub fn key_style_or_absent(&self, id: u32) -> (r: bool)
        ensures
            r == is_key_style_or_absent(self@, id),
    {
        match self.element_styles.get(&id) {
            Some(ElementStyle::MouseSpeedIndicatorStyle(_)) => false,
            _ => true,
        }
    }

    /// Whether the element `id` has no style of its own, or a mouse speed indicator style.
    pub fn indicator_style_or_absent(&self, id: u32) -> (r: bool)
        ensures
            r == is_indicator_style_or_absent(self@, id),
    {
        match self.element_styles.get(&id) {
            Some(ElementStyle::KeyStyle(_)) => false,
            _ => true,
        }
    }

    /// The style the mouse speed indicator `id` is drawn with (see `spec_indicator_style`).
    pub fn indicator_style(&self, id: u32) -> (r: MouseSpeedIndicatorStyle<F>)
        requires
            is_indicator_style_or_absent(self@, id),
        ensures
            r == spec_indicator_style(self@, id),
    {
        match self.element_styles.get(&id) {
            Some(ElementStyle::MouseSpeedIndicatorStyle(m)) => *m,
            _ => self.default_mouse_speed_indicator_style,
        }
    }
}

} // verus!
