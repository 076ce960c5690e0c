use vstd::prelude::*;
use crate::board::{BoardView, NuhxBoard};
use crate::events::{Effect, EffectView, Redraw, effect_views};
use crate::inputs::{SelectionType, SelectionsView};
use crate::layout::{
    BoardElement, CommonDefinition, ElementKind, ElementProperty, ElementView,
    KeyboardKeyDefinition, MouseSpeedIndicatorDefinition, SerializablePoint, element_replaced,
    max_id, property_applied, property_applies, spec_stale_selection,
};
use crate::windows::{AppWindow, RectangleDialog, WindowId};

verus! {

/// Effects: the element at an index is drawn again.
pub open spec fn redraw_element<F>(index: usize) -> Seq<EffectView<F>> {
    seq![EffectView::<F>::Redraw(Redraw::Element(index))]
}

/// The id a new element gets: one more than the largest id of the layout.
pub open spec fn new_id<F>(b: BoardView<F>) -> u32 {
    (max_id(b.elements) + 1) as u32
}

/// A new element can get an id.
pub open spec fn can_add_element<F>(b: BoardView<F>) -> bool {
    max_id(b.elements) < u32::MAX
}

/// The model of a new polygon element of a kind: the given outline, its text at the last
/// right click, no text, and the given key codes.
pub open spec fn new_polygon<F>(
    b: BoardView<F>,
    kind: ElementKind,
    boundaries: Seq<SerializablePoint<F>>,
    key_codes: Seq<u32>,
) -> ElementView<F> {
    ElementView {
        kind,
        id: new_id(b),
        boundaries,
        text_position: b.right_click_pos,
        key_codes,
        text: Seq::empty(),
        shift_text: Seq::empty(),
        change_on_caps: false,
        radius: arbitrary(),
    }
}

/// The selections after a property change: a removed boundary or key code clears the
/// element's selection in that list.
pub open spec fn selections_after<F>(
    s: SelectionsView,
    element: usize,
    property: ElementProperty<F>,
) -> SelectionsView {
    match spec_stale_selection(property) {
        Some(list) => s.clear(element, list),
        None => s,
    }
}

/// The board and effects after a change to one property of the element at `index`: the
/// property changes as `property_applied` says and the other elements stay, the selection the
/// change makes stale is cleared, the element is drawn again, and the layout has unsaved
/// changes.
pub open spec fn change_element_post<F>(
    old: BoardView<F>,
    index: usize,
    property: ElementProperty<F>,
    new: BoardView<F>,
    effects: Seq<EffectView<F>>,
) -> bool {
    &&& new == BoardView {
        elements: new.elements,
        selections: selections_after(old.selections, index, property),
        layout_commited: false,
        ..old
    }
    &&& element_replaced(old.elements, new.elements, index as int)
    &&& property_applied(old.elements[index as int], new.elements[index as int], property)
    &&& effects == redraw_element::<F>(index)
}

/// The board and effects after two boundaries of the element at `index` are swapped: the
/// boundary now at `right` is selected, the element is drawn again and the layout has unsaved
/// changes.
pub open spec fn swap_boundaries_post<F>(
    old: BoardView<F>,
    index: usize,
    left: usize,
    right: usize,
    new: BoardView<F>,
    effects: Seq<EffectView<F>>,
) -> bool {
    let e = old.elements[index as int];
    &&& new == BoardView {
        elements: old.elements.update(
            index as int,
            ElementView {
                boundaries: e.boundaries.update(left as int, e.boundaries[right as int]).update(
                    right as int,
                    e.boundaries[left as int],
                ),
                ..e
            },
        ),
        selections: old.selections.select(index, SelectionType::Boundary, right),
        layout_commited: false,
        ..old
    }
    &&& effects == redraw_element::<F>(index)
}

/// The board and effects after the element at `index` is made the rectangle with the given
/// corners: the element is drawn again and its rectangle windows close.
pub open spec fn make_rectangle_post<F>(
    old: BoardView<F>,
    index: usize,
    corners: Seq<SerializablePoint<F>>,
    new: BoardView<F>,
    effects: Seq<EffectView<F>>,
) -> bool {
    &&& new == BoardView {
        elements: old.elements.update(
            index as int,
            ElementView { boundaries: corners, ..old.elements[index as int] },
        ),
        ..old
    }
    &&& effects == redraw_element::<F>(index) + seq![
        EffectView::<F>::CloseWindows(old.windows.instances(WindowId::RectangleDialog(index))),
    ]
}

/// The board after the element under the cursor is removed: no element is hovered any more,
/// and the layout has unsaved changes. Nothing happens when no element is hovered.
pub open spec fn remove_element_post<F>(old: BoardView<F>, new: BoardView<F>) -> bool {
    match old.hovered_element {
        None => new == old,
        Some(i) => new == BoardView {
            elements: old.elements.remove(i as int),
            hovered_element: None,
            layout_commited: false,
            ..old
        },
    }
}

impl<F: Copy> NuhxBoard<F> {
    /// Changes one property of the element at `index` (see `change_element_post`).
    pub fn change_element(&mut self, index: usize, property: ElementProperty<F>) -> (effects: Vec<
        Effect<F>,
    >)
        requires
            index < old(self)@.elements.len(),
            property_applies(old(self)@.elements[index as int], property),
        ensures
            change_element_post(old(self)@, index, property, final(self)@, effect_views(effects@)),
    {
        let stale = self.layout.apply_property_at(index, property);
        match stale {
            Some(list) => self.selections.clear(index, list),
            None => {},
        }
        self.layout_commited = false;
        let mut effects = Vec::new();
        effects.push(Effect::Redraw(Redraw::Element(index)));
        assert(effect_views(effects@) =~= redraw_element::<F>(index));
        effects
    }

    /// Swaps two boundaries of the element at `index` (see `swap_boundaries_post`).
    pub fn swap_boundaries(&mut self, index: usize, left: usize, right: usize) -> (effects: Vec<
        Effect<F>,
    >)
        requires
            index < old(self)@.elements.len(),
            old(self)@.elements[index as int].is_polygon(),
            left < old(self)@.elements[index as int].boundaries.len(),
            right < old(self)@.elements[index as int].boundaries.len(),
        ensures
            swap_boundaries_post(
                old(self)@,
                index,
                left,
                right,
                final(self)@,
                effect_views(effects@),
            ),
    {
        self.layout.swap_boundaries_at(index, left, right);
        self.selections.select(index, SelectionType::Boundary, right);
        self.layout_commited = false;
        let mut effects = Vec::new();
        effects.push(Effect::Redraw(Redraw::Element(index)));
        proof {
            assert(self@.elements =~= old(self)@.elements.update(index as int, self@.elements[index as int]));
            assert(effect_views(effects@) =~= redraw_element::<F>(index));
        }
        effects
    }

    /// Makes the element at `index` the rectangle with the given corners (see
    /// `make_rectangle_post`).
    pub fn make_rectangle(&mut self, index: usize, corners: Vec<SerializablePoint<F>>) -> (effects:
        Vec<Effect<F>>)
        requires
            index < old(self)@.elements.len(),
            old(self)@.elements[index as int].is_polygon(),
        ensures
            make_rectangle_post(
                old(self)@,
                index,
                corners@,
                final(self)@,
                effect_views(effects@),
            ),
    {
        let ghost c = corners@;
        self.layout.set_boundaries_at(index, corners);
        let mut effects = Vec::new();
        effects.push(Effect::Redraw(Redraw::Element(index)));
        let ghost first = effects@;
        let mut close = self.close_all_of(&AppWindow::RectangleDialog(RectangleDialog { index }));
        let ghost second = close@;
        effects.append(&mut close);
        proof {
            assert(self@.elements =~= old(self)@.elements.update(index as int, self@.elements[index as int]));
            assert(effect_views(effects@) =~= effect_views(first) + effect_views(second));
            assert(effect_views(first) =~= redraw_element::<F>(index));
        }
        effects
    }

    /// The id a new element gets (see `new_id`).
    fn next_element_id(&self) -> (id: u32)
        requires
            can_add_element(self@),
        ensures
            id == new_id(self@),
    {
        self.layout.max_id() + 1
    }

    /// Adds a keyboard key with the given outline at the last right click (see `new_polygon`);
    /// the layout has unsaved changes.
    pub fn add_keyboard_key(&mut self, boundaries: Vec<SerializablePoint<F>>)
        requires
            can_add_element(old(self)@),
        ensures
            final(self)@ == (BoardView {
                elements: old(self)@.elements.push(
                    new_polygon(
                            old(self)@,
                            ElementKind::KeyboardKey,
                            boundaries@,
                            Seq::empty(),
                        ),
                ),
                layout_commited: false,
                ..old(self)@
            }),
    {
        let id = self.next_element_id();
        let element = BoardElement::KeyboardKey(
            KeyboardKeyDefinition {
                id,
                boundaries,
                text_position: self.right_click_pos,
                key_codes: Vec::new(),
                text: String::new(),
                shift_text: String::new(),
                change_on_caps: false,
            },
        );
        self.layout.push_element(element);
        self.layout_commited = false;
        assert(self@.elements.last().key_codes =~= Seq::<u32>::empty());
    }

    /// Adds a mouse key for the left button with the given outline at the last right click
    /// (see `new_polygon`); the layout has unsaved changes.
    pub fn add_mouse_key(&mut self, boundaries: Vec<SerializablePoint<F>>)
        requires
            can_add_element(old(self)@),
        ensures
            final(self)@ == (BoardView {
                elements: old(self)@.elements.push(
                    new_polygon(old(self)@, ElementKind::MouseKey, boundaries@, seq![0u32]),
                ),
                layout_commited: false,
                ..old(self)@
            }),
    {
        let id = self.next_element_id();
        let mut key_codes = Vec::new();
        key_codes.push(0);
        let element = BoardElement::MouseKey(
            CommonDefinition {
                id,
                boundaries,
                text_position: self.right_click_pos,
                key_codes,
                text: String::new(),
            },
        );
        self.layout.push_element(element);
        self.layout_commited = false;
        assert(self@.elements.last().key_codes =~= seq![0u32]);
    }

    /// Adds a mouse scroll with the given outline at the last right click (see
    /// `new_polygon`); the layout has unsaved changes.
    pub fn add_mouse_scroll(&mut self, boundaries: Vec<SerializablePoint<F>>)
        requires
            can_add_element(old(self)@),
        ensures
            final(self)@ == (BoardView {
                elements: old(self)@.elements.push(
                    new_polygon(
                            old(self)@,
                            ElementKind::MouseScroll,
                            boundaries@,
                            Seq::empty(),
                        ),
                ),
                layout_commited: false,
                ..old(self)@
            }),
    {
        let id = self.next_element_id();
        let element = BoardElement::MouseScroll(
            CommonDefinition {
                id,
                boundaries,
                text_position: self.right_click_pos,
                key_codes: Vec::new(),
                text: String::new(),
            },
        );
        self.layout.push_element(element);
        self.layout_commited = false;
        assert(self@.elements.last().key_codes =~= Seq::<u32>::empty());
    }

    /// Adds a mouse speed indicator of the given radius at the last right click; the layout
    /// has unsaved changes.
    pub fn add_mouse_speed_indicator(&mut self, radius: F)
        requires
            can_add_element(old(self)@),
        ensures
            final(self)@ == (BoardView {
                elements: old(self)@.elements.push(
                    ElementView {
                        kind: ElementKind::MouseSpeedIndicator,
                        id: new_id(old(self)@),
                        boundaries: Seq::empty(),
                        text_position: old(self)@.right_click_pos,
                        key_codes: Seq::empty(),
                        text: Seq::empty(),
                        shift_text: Seq::empty(),
                        change_on_caps: false,
                        radius,
                    },
                ),
                layout_commited: false,
                ..old(self)@
            }),
    {
        let id = self.next_element_id();
        let element = BoardElement::MouseSpeedIndicator(
            MouseSpeedIndicatorDefinition { id, location: self.right_click_pos, radius },
        );
        self.layout.push_element(element);
        self.layout_commited = false;
    }

    /// Removes the element under the cursor (see `remove_element_post`).
    pub fn remove_element(&mut self)
        requires
            old(self)@.hovered_element matches Some(i) ==> i < old(self)@.elements.len(),
        ensures
            remove_element_post(old(self)@, final(self)@),
    {
        match self.hovered_element {
            None => {},
            Some(i) => {
                self.hovered_element = None;
                self.layout.remove_element(i);
                self.layout_commited = false;
            },
        }
    }

    /// Draws the element at `index` again.
    pub fn clear_cache(&self, index: usize) -> (effects: Vec<Effect<F>>)
        requires
            index < self@.elements.len(),
        ensures
            effect_views(effects@) == redraw_element::<F>(index),
    {
        let mut effects = Vec::new();
        effects.push(Effect::Redraw(Redraw::Element(index)));
        assert(effect_views(effects@) =~= redraw_element::<F>(index));
        effects
    }

    /// Draws everything again.
    pub fn clear_all_caches(&self) -> (effects: Vec<Effect<F>>)
        ensures
            effect_views(effects@) == seq![EffectView::<F>::Redraw(Redraw::All)],
    {
        let mut effects = Vec::new();
        effects.push(Effect::Redraw(Redraw::All));
        assert(effect_views(effects@) =~= seq![EffectView::<F>::Redraw(Redraw::All)]);
        effects
    }
}

} // verus!
