use vstd::prelude::*;
use crate::board::{BoardView, NuhxBoard};
use crate::layout::{BoardElement, ElementKind};
use crate::settings::{shows_shift_text, spec_shows_shift_text};
use crate::style::{
    KeySubStyle, MouseSpeedIndicatorStyle, is_indicator_style_or_absent, is_key_style_or_absent,
    spec_indicator_style, spec_key_sub_style,
};

verus! {

broadcast use vstd::std_specs::hash::group_hash_axioms;

/// Whether an element with these codes shows as pressed: it tracks a code, and every code it
/// tracks is pressed.
pub open spec fn codes_pressed(codes: Seq<u32>, pressed: Set<u32>) -> bool {
    codes.len() > 0 && forall|i: int| 0 <= i < codes.len() ==> pressed.contains(#[trigger] codes[i])
}

/// The codes that are pressed for an element of a kind: keys for a keyboard key, buttons for
/// a mouse key, scroll directions for a mouse scroll.
pub open spec fn pressed_codes<F>(b: BoardView<F>, kind: ElementKind) -> Set<u32> {
    match kind {
        ElementKind::KeyboardKey => b.pressed_keys.dom(),
        ElementKind::MouseKey => b.pressed_mouse_buttons.dom(),
        ElementKind::MouseScroll => b.pressed_scroll_buttons.dom(),
        ElementKind::MouseSpeedIndicator => Set::empty(),
    }
}

/// Whether the element at `index` shows as pressed. A mouse speed indicator never does.
pub open spec fn element_pressed<F>(b: BoardView<F>, index: int) -> bool {
    let e = b.elements[index];
    e.is_polygon() && codes_pressed(e.key_codes, pressed_codes(b, e.kind))
}

/// Whether a shift key is held, given the key codes of the two shift keys.
pub open spec fn shift_held<F>(b: BoardView<F>, shift_left: u32, shift_right: u32) -> bool {
    b.pressed_keys.contains_key(shift_left) || b.pressed_keys.contains_key(shift_right)
}

/// The text the element at `index` shows: a keyboard key shows its shift text when
/// `spec_shows_shift_text` says so and its text otherwise; mouse keys and scrolls show their
/// text; a mouse speed indicator shows none.
pub open spec fn element_text<F>(
    b: BoardView<F>,
    index: int,
    shift_left: u32,
    shift_right: u32,
) -> Seq<char> {
    let e = b.elements[index];
    match e.kind {
        ElementKind::KeyboardKey => if spec_shows_shift_text(
            e.change_on_caps,
            b.caps,
            shift_held(b, shift_left, shift_right),
            b.settings.capitalization,
            b.settings.follow_for_caps_sensitive,
            b.settings.follow_for_caps_insensitive,
        ) {
            e.shift_text
        } else {
            e.text
        },
        ElementKind::MouseSpeedIndicator => Seq::empty(),
        _ => e.text,
    }
}

/// Whether every code of a list is in a map's keys.
fn all_codes_in<V>(codes: &Vec<u32>, pressed: &std::collections::HashMap<u32, V>) -> (r: bool)
    ensures
        r == codes_pressed(codes@, pressed@.dom()),
{
    if codes.len() == 0 {
        return false;
    }
    let mut i: usize = 0;
    while i < codes.len()
        invariant
            0 <= i <= codes.len(),
            forall|k: int| 0 <= k < i ==> pressed@.dom().contains(#[trigger] codes@[k]),
        decreases codes.len() - i,
    {
        if !pressed.contains_key(&codes[i]) {
            return false;
        }
        i = i + 1;
    }
    true
}

impl<F: Copy> NuhxBoard<F> {
    /// Whether the element at `index` shows as pressed (see `element_pressed`).
    pub fn element_pressed(&self, index: usize) -> (r: bool)
        requires
            index < self@.elements.len(),
        ensures
            r == element_pressed(self@, index as int),
    {
        let e = &self.layout.elements[index];
        assert(self@.elements[index as int] == e@);
        match e {
            BoardElement::KeyboardKey(d) => all_codes_in(&d.key_codes, &self.pressed_keys),
            BoardElement::MouseKey(d) => all_codes_in(&d.key_codes, &self.pressed_mouse_buttons),
            BoardElement::MouseScroll(d) => all_codes_in(&d.key_codes, &self.pressed_scroll_buttons),
            BoardElement::MouseSpeedIndicator(_) => false,
        }
    }

    /// The text the element at `index` shows (see `element_text`), given the key codes of the
    /// two shift keys.
    pub fn element_text(&self, index: usize, shift_left: u32, shift_right: u32) -> (r: String)
        requires
            index < self@.elements.len(),
        ensures
            r@ == element_text(self@, index as int, shift_left, shift_right),
    {
        let e = &self.layout.elements[index];
        assert(self@.elements[index as int] == e@);
        match e {
            BoardElement::KeyboardKey(d) => {
                let shift = self.pressed_keys.contains_key(&shift_left)
                    || self.pressed_keys.contains_key(&shift_right);
                if shows_shift_text(
                    d.change_on_caps,
                    self.caps,
                    shift,
                    self.settings.capitalization,
                    self.settings.follow_for_caps_sensitive,
                    self.settings.follow_for_caps_insensitive,
                ) {
                    d.shift_text.clone()
                } else {
                    d.text.clone()
                }
            },
            BoardElement::MouseKey(d) => d.text.clone(),
            BoardElement::MouseScroll(d) => d.text.clone(),
            BoardElement::MouseSpeedIndicator(_) => String::new(),
        }
    }

    /// The sub-style the polygon element at `index` is drawn with now: for its state, from
    /// its own style or the layout-wide one.
    pub fn element_sub_style(&self, index: usize) -> (r: &KeySubStyle<F>)
        requires
            index < self@.elements.len(),
            is_key_style_or_absent(self@.style, self@.elements[index as int].id),
        ensures
            r@ == spec_key_sub_style(
                self@.style,
                self@.elements[index as int].id,
                element_pressed(self@, index as int),
            ),
    {
        let pressed = self.element_pressed(index);
        let id = self.layout.elements[index].id();
        self.style.key_sub_style(id, pressed)
    }

    /// The style the mouse speed indicator at `index` is drawn with.
    pub fn indicator_style(&self, index: usize) -> (r: MouseSpeedIndicatorStyle<F>)
        requires
            index < self@.elements.len(),
            is_indicator_style_or_absent(self@.style, self@.elements[index as int].id),
        ensures
            r == spec_indicator_style(self@.style, self@.elements[index as int].id),
    {
        let id = self.layout.elements[index].id();
        self.style.indicator_style(id)
    }
}

} // verus!
