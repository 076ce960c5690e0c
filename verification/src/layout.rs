use vstd::prelude::*;
use crate::codes::{code_set, sorted_code_set, sorted_insert, sorted_remove, strictly_increasing};
use crate::inputs::SelectionType;

verus! {

/// A point of a layout. `F` is the scalar type of coordinates (a float in the application);
/// the library only stores and moves such values and never computes with them.
#[derive(PartialEq, Eq, Structural, Clone, Copy, Debug)]
pub struct SerializablePoint<F> {
    pub x: F,
    pub y: F,
}

/// A keyboard key: a polygon, the key codes it tracks, and its texts.
pub struct KeyboardKeyDefinition<F> {
    /// Unique id of the element. Used by style files.
    pub id: u32,
    /// Vertices of the element, in drawing order.
    pub boundaries: Vec<SerializablePoint<F>>,
    /// Where the element's text is placed (window-relative).
    pub text_position: SerializablePoint<F>,
    pub key_codes: Vec<u32>,
    pub text: String,
    /// Text to display when Shift is held.
    pub shift_text: String,
    /// Whether the key follows the state of caps lock.
    pub change_on_caps: bool,
}

/// The part shared by every element but the mouse speed indicator. Mouse keys and mouse
/// scrolls are exactly this.
pub struct CommonDefinition<F> {
    pub id: u32,
    pub boundaries: Vec<SerializablePoint<F>>,
    pub text_position: SerializablePoint<F>,
    pub key_codes: Vec<u32>,
    pub text: String,
}

/// A mouse speed indicator: a ring at `location` with outer radius `radius`.
pub struct MouseSpeedIndicatorDefinition<F> {
    pub id: u32,
    pub location: SerializablePoint<F>,
    pub radius: F,
}

/// The elements a layout is made of.
pub enum BoardElement<F> {
    KeyboardKey(KeyboardKeyDefinition<F>),
    MouseKey(CommonDefinition<F>),
    MouseScroll(CommonDefinition<F>),
    MouseSpeedIndicator(MouseSpeedIndicatorDefinition<F>),
}

/// A keyboard layout: the window size and the elements.
pub struct Layout<F> {
    /// No actual meaning. Kept for parity with NohBoard layout files.
    pub version: Option<u8>,
    pub width: F,
    pub height: F,
    pub elements: Vec<BoardElement<F>>,
}

/// The kind of an element.
#[derive(PartialEq, Eq, Structural, Clone, Copy, Debug)]
pub enum ElementKind {
    KeyboardKey,
    MouseKey,
    MouseScroll,
    MouseSpeedIndicator,
}

/// Mathematical model of any element: its kind, id, and (for the polygon elements) shape,
/// codes and texts. A mouse speed indicator keeps its location in `text_position`.
pub struct ElementView<F> {
    pub kind: ElementKind,
    pub id: u32,
    pub boundaries: Seq<SerializablePoint<F>>,
    pub text_position: SerializablePoint<F>,
    pub key_codes: Seq<u32>,
    pub text: Seq<char>,
    pub shift_text: Seq<char>,
    pub change_on_caps: bool,
    pub radius: F,
}

impl<F> ElementView<F> {
    pub open spec fn is_polygon(self) -> bool {
        self.kind != ElementKind::MouseSpeedIndicator
    }

    pub open spec fn is_mouse_button(self) -> bool {
        self.kind == ElementKind::MouseKey || self.kind == ElementKind::MouseScroll
    }
}

impl<F> View for BoardElement<F> {
    type V = ElementView<F>;

    open spec fn view(&self) -> ElementView<F> {
        match self {
            BoardElement::KeyboardKey(d) => ElementView {
                kind: ElementKind::KeyboardKey,
                id: d.id,
                boundaries: d.boundaries@,
                text_position: d.text_position,
                key_codes: d.key_codes@,
                text: d.text@,
                shift_text: d.shift_text@,
                change_on_caps: d.change_on_caps,
                radius: arbitrary(),
            },
            BoardElement::MouseKey(d) => ElementView {
                kind: ElementKind::MouseKey,
                id: d.id,
                boundaries: d.boundaries@,
                text_position: d.text_position,
                key_codes: d.key_codes@,
                text: d.text@,
                shift_text: Seq::empty(),
                change_on_caps: false,
                radius: arbitrary(),
            },
            BoardElement::MouseScroll(d) => ElementView {
                kind: ElementKind::MouseScroll,
                id: d.id,
                boundaries: d.boundaries@,
                text_position: d.text_position,
                key_codes: d.key_codes@,
                text: d.text@,
                shift_text: Seq::empty(),
                change_on_caps: false,
                radius: arbitrary(),
            },
            BoardElement::MouseSpeedIndicator(d) => ElementView {
                kind: ElementKind::MouseSpeedIndicator,
                id: d.id,
                boundaries: Seq::empty(),
                text_position: d.location,
                key_codes: Seq::empty(),
                text: Seq::empty(),
                shift_text: Seq::empty(),
                change_on_caps: false,
                radius: d.radius,
            },
        }
    }
}

impl<F> View for Layout<F> {
    type V = Seq<ElementView<F>>;

    /// The elements, in order.
    open spec fn view(&self) -> Seq<ElementView<F>> {
        self.elements@.map_values(|e: BoardElement<F>| e@)
    }
}

impl<F> BoardElement<F> {
    /// The element's unique id.
    pub fn id(&self) -> (id: u32)
        ensures
            id == self@.id,
    {
        match self {
            BoardElement::KeyboardKey(d) => d.id,
            BoardElement::MouseKey(d) => d.id,
            BoardElement::MouseScroll(d) => d.id,
            BoardElement::MouseSpeedIndicator(d) => d.id,
        }
    }

    /// The element's kind.
    pub fn kind(&self) -> (kind: ElementKind)
        ensures
            kind == self@.kind,
    {
        match self {
            BoardElement::KeyboardKey(_) => ElementKind::KeyboardKey,
            BoardElement::MouseKey(_) => ElementKind::MouseKey,
            BoardElement::MouseScroll(_) => ElementKind::MouseScroll,
            BoardElement::MouseSpeedIndicator(_) => ElementKind::MouseSpeedIndicator,
        }
    }

    /// The number of vertices of the element's outline (none for a mouse speed indicator).
    pub fn boundary_count(&self) -> (n: usize)
        ensures
            n == self@.boundaries.len(),
    {
        match self {
            BoardElement::KeyboardKey(d) => d.boundaries.len(),
            BoardElement::MouseKey(d) => d.boundaries.len(),
            BoardElement::MouseScroll(d) => d.boundaries.len(),
            BoardElement::MouseSpeedIndicator(_) => 0,
        }
    }

    /// Whether a property can be changed on the element (see `property_applies`).
    pub fn accepts(&self, p: &ElementProperty<F>) -> (r: bool)
        ensures
            r == property_applies(self@, *p),
    {
        let kind = self.kind();
        let polygon = match kind {
            ElementKind::MouseSpeedIndicator => false,
            _ => true,
        };
        let keyboard_key = match kind {
            ElementKind::KeyboardKey => true,
            _ => false,
        };
        match p {
            ElementProperty::Text(_) => polygon,
            ElementProperty::TextPositionX(_) => polygon,
            ElementProperty::TextPositionY(_) => polygon,
            ElementProperty::Boundary(i, v) => polygon && (v.is_some() || *i < self.boundary_count()),
            ElementProperty::Keycode(i, v) => match self.key_codes() {
                Some(c) => v.is_some() || *i < c.len(),
                None => false,
            },
            ElementProperty::ShiftText(_) => keyboard_key,
            ElementProperty::FollowCaps => keyboard_key,
            ElementProperty::MouseSpeedIndicatorPositionX(_) => !polygon,
            ElementProperty::MouseSpeedIndicatorPositionY(_) => !polygon,
            ElementProperty::MouseSpeedIndicatorRadius(_) => !polygon,
        }
    }

    /// The key codes the element tracks; `None` for a mouse speed indicator, which tracks none.
    pub fn key_codes(&self) -> (codes: Option<&Vec<u32>>)
        ensures
            match codes {
                Some(c) => self@.is_polygon() && c@ == self@.key_codes,
                None => !self@.is_polygon(),
            },
    {
        match self {
            BoardElement::KeyboardKey(d) => Some(&d.key_codes),
            BoardElement::MouseKey(d) => Some(&d.key_codes),
            BoardElement::MouseScroll(d) => Some(&d.key_codes),
            BoardElement::MouseSpeedIndicator(_) => None,
        }
    }
}

/// A change to one property of an element, as made in the element properties window.
pub enum ElementProperty<F> {
    Text(String),
    ShiftText(String),
    TextPositionX(F),
    TextPositionY(F),
    FollowCaps,
    /// Sets (`Some`) or removes (`None`) the boundary at an index; setting one past the end
    /// appends it.
    Boundary(usize, Option<SerializablePoint<F>>),
    /// Adds (`Some`) a key code, or removes (`None`) the key code at an index.
    Keycode(usize, Option<u32>),
    MouseSpeedIndicatorPositionX(F),
    MouseSpeedIndicatorPositionY(F),
    MouseSpeedIndicatorRadius(F),
}

/// Whether a property can be changed on an element: a polygon property on a polygon element,
/// the shift text and caps behaviour on a keyboard key, the position and radius on a mouse
/// speed indicator; and a removed boundary or key code must exist.
pub open spec fn property_applies<F>(e: ElementView<F>, p: ElementProperty<F>) -> bool {
    match p {
        ElementProperty::Text(_) => e.is_polygon(),
        ElementProperty::TextPositionX(_) => e.is_polygon(),
        ElementProperty::TextPositionY(_) => e.is_polygon(),
        ElementProperty::Boundary(i, v) => e.is_polygon() && (v is None ==> i < e.boundaries.len()),
        ElementProperty::Keycode(i, v) => e.is_polygon() && (v is None ==> i < e.key_codes.len()),
        ElementProperty::ShiftText(_) => e.kind == ElementKind::KeyboardKey,
        ElementProperty::FollowCaps => e.kind == ElementKind::KeyboardKey,
        ElementProperty::MouseSpeedIndicatorPositionX(_) => e.kind
            == ElementKind::MouseSpeedIndicator,
        ElementProperty::MouseSpeedIndicatorPositionY(_) => e.kind
            == ElementKind::MouseSpeedIndicator,
        ElementProperty::MouseSpeedIndicatorRadius(_) => e.kind
            == ElementKind::MouseSpeedIndicator,
    }
}

/// The boundaries after setting or removing the one at `i`.
pub open spec fn spec_boundary_edit<F>(
    s: Seq<SerializablePoint<F>>,
    i: usize,
    v: Option<SerializablePoint<F>>,
) -> Seq<SerializablePoint<F>> {
    match v {
        Some(p) => if i >= s.len() {
            s.push(p)
        } else {
            s.update(i as int, p)
        },
        None => s.remove(i as int),
    }
}

/// The set of key codes after adding `v` (a mouse button element tracks a single code, so
/// adding replaces it) or removing the code at `i`.
pub open spec fn spec_key_code_edit(
    s: Seq<u32>,
    i: usize,
    v: Option<u32>,
    mouse_button: bool,
) -> Set<u32> {
    match v {
        Some(code) => if mouse_button {
            Set::empty().insert(code)
        } else {
            code_set(s).insert(code)
        },
        None => code_set(s).remove(s[i as int]),
    }
}

/// How an element looks after a property change. Key codes are always kept as a sorted list
/// without repeats.
pub open spec fn property_applied<F>(
    old: ElementView<F>,
    new: ElementView<F>,
    p: ElementProperty<F>,
) -> bool {
    match p {
        ElementProperty::Text(v) => new == ElementView { text: v@, ..old },
        ElementProperty::ShiftText(v) => new == ElementView { shift_text: v@, ..old },
        ElementProperty::TextPositionX(v) => new == ElementView {
            text_position: SerializablePoint { x: v, ..old.text_position },
            ..old
        },
        ElementProperty::TextPositionY(v) => new == ElementView {
            text_position: SerializablePoint { y: v, ..old.text_position },
            ..old
        },
        ElementProperty::FollowCaps => new == ElementView {
            change_on_caps: !old.change_on_caps,
            ..old
        },
        ElementProperty::Boundary(i, v) => new == ElementView {
            boundaries: spec_boundary_edit(old.boundaries, i, v),
            ..old
        },
        ElementProperty::Keycode(i, v) => {
            &&& new == ElementView { key_codes: new.key_codes, ..old }
            &&& strictly_increasing(new.key_codes)
            &&& code_set(new.key_codes) == spec_key_code_edit(
                old.key_codes,
                i,
                v,
                old.is_mouse_button(),
            )
        },
        ElementProperty::MouseSpeedIndicatorPositionX(v) => new == ElementView {
            text_position: SerializablePoint { x: v, ..old.text_position },
            ..old
        },
        ElementProperty::MouseSpeedIndicatorPositionY(v) => new == ElementView {
            text_position: SerializablePoint { y: v, ..old.text_position },
            ..old
        },
        ElementProperty::MouseSpeedIndicatorRadius(v) => new == ElementView { radius: v, ..old },
    }
}

/// The selection that a property change makes stale: removing a boundary or a key code
/// clears the element's selection in that list.
pub open spec fn spec_stale_selection<F>(p: ElementProperty<F>) -> Option<SelectionType> {
    match p {
        ElementProperty::Boundary(_, None) => Some(SelectionType::Boundary),
        ElementProperty::Keycode(_, None) => Some(SelectionType::Keycode),
        _ => None,
    }
}

fn edit_boundary<F: Copy>(
    boundaries: &mut Vec<SerializablePoint<F>>,
    index: usize,
    value: Option<SerializablePoint<F>>,
)
    requires
        value is None ==> index < old(boundaries).len(),
    ensures
        final(boundaries)@ == spec_boundary_edit(old(boundaries)@, index, value),
{
    match value {
        Some(p) => {
            if index >= boundaries.len() {
                boundaries.push(p);
            } else {
                boundaries[index] = p;
            }
        },
        None => {
            boundaries.remove(index);
        },
    }
}

fn edit_key_codes(codes: &mut Vec<u32>, index: usize, value: Option<u32>, mouse_button: bool)
    requires
        value is None ==> index < old(codes).len(),
    ensures
        strictly_increasing(final(codes)@),
        code_set(final(codes)@) == spec_key_code_edit(old(codes)@, index, value, mouse_button),
{
    let mut set = sorted_code_set(codes);
    match value {
        Some(v) => {
            if mouse_button {
                set.clear();
                assert(code_set(set@) =~= Set::<u32>::empty());
            }
            sorted_insert(&mut set, v);
        },
        None => {
            let c = codes[index];
            sorted_remove(&mut set, c);
        },
    }
    *codes = set;
}

impl<F: Copy> BoardElement<F> {
    /// Changes one property of the element. Returns the selection that the change makes stale.
    pub fn apply_property(&mut self, property: ElementProperty<F>) -> (stale: Option<
        SelectionType,
    >)
        requires
            property_applies(old(self)@, property),
        ensures
            property_applied(old(self)@, final(self)@, property),
            stale == spec_stale_selection(property),
    {
        let mouse_button = match self {
            BoardElement::MouseKey(_) => true,
            BoardElement::MouseScroll(_) => true,
            _ => false,
        };
        let stale = match &property {
            ElementProperty::Boundary(_, None) => Some(SelectionType::Boundary),
            ElementProperty::Keycode(_, None) => Some(SelectionType::Keycode),
            _ => None,
        };
        match self {
            BoardElement::KeyboardKey(d) => match property {
                ElementProperty::Text(v) => d.text = v,
                ElementProperty::ShiftText(v) => d.shift_text = v,
                ElementProperty::TextPositionX(v) => d.text_position.x = v,
                ElementProperty::TextPositionY(v) => d.text_position.y = v,
                ElementProperty::FollowCaps => d.change_on_caps = !d.change_on_caps,
                ElementProperty::Boundary(i, v) => edit_boundary(&mut d.boundaries, i, v),
                ElementProperty::Keycode(i, v) => edit_key_codes(
                    &mut d.key_codes,
                    i,
                    v,
                    mouse_button,
                ),
                _ => {},
            },
            BoardElement::MouseKey(d) => match property {
                ElementProperty::Text(v) => d.text = v,
                ElementProperty::TextPositionX(v) => d.text_position.x = v,
                ElementProperty::TextPositionY(v) => d.text_position.y = v,
                ElementProperty::Boundary(i, v) => edit_boundary(&mut d.boundaries, i, v),
                ElementProperty::Keycode(i, v) => edit_key_codes(
                    &mut d.key_codes,
                    i,
                    v,
                    mouse_button,
                ),
                _ => {},
            },
            BoardElement::MouseScroll(d) => match property {
                ElementProperty::Text(v) => d.text = v,
                ElementProperty::TextPositionX(v) => d.text_position.x = v,
                ElementProperty::TextPositionY(v) => d.text_position.y = v,
                ElementProperty::Boundary(i, v) => edit_boundary(&mut d.boundaries, i, v),
                ElementProperty::Keycode(i, v) => edit_key_codes(
                    &mut d.key_codes,
                    i,
                    v,
                    mouse_button,
                ),
                _ => {},
            },
            BoardElement::MouseSpeedIndicator(d) => match property {
                ElementProperty::MouseSpeedIndicatorPositionX(v) => d.location.x = v,
                ElementProperty::MouseSpeedIndicatorPositionY(v) => d.location.y = v,
                ElementProperty::MouseSpeedIndicatorRadius(v) => d.radius = v,
                _ => {},
            },
        }
        stale
    }
}

/// The largest element id of a list of elements; 0 for none.
pub open spec fn max_id<F>(elements: Seq<ElementView<F>>) -> u32
    decreases elements.len(),
{
    if elements.len() == 0 {
        0
    } else {
        let rest = max_id(elements.drop_last());
        if elements.last().id > rest {
            elements.last().id
        } else {
            rest
        }
    }
}

/// The elements after the element at `i` changes to `e`, others staying as they are.
pub open spec fn element_replaced<F>(
    old: Seq<ElementView<F>>,
    new: Seq<ElementView<F>>,
    i: int,
) -> bool {
    &&& new.len() == old.len()
    &&& forall|j: int| 0 <= j < old.len() && j != i ==> new[j] == old[j]
}

impl<F: Copy> Layout<F> {
    /// The largest element id; 0 when there is no element.
    pub fn max_id(&self) -> (m: u32)
        ensures
            m == max_id(self@),
    {
        let mut m: u32 = 0;
        let mut i: usize = 0;
        proof {
            assert(self@.subrange(0, 0) =~= Seq::<ElementView<F>>::empty());
        }
        while i < self.elements.len()
            invariant
                0 <= i <= self.elements.len(),
                m == max_id(self@.subrange(0, i as int)),
            decreases self.elements.len() - i,
        {
            let id = self.elements[i].id();
            proof {
                let prefix = self@.subrange(0, i + 1);
                assert(prefix.drop_last() =~= self@.subrange(0, i as int));
                assert(prefix.last() == self.elements@[i as int]@);
            }
            if id > m {
                m = id;
            }
            i = i + 1;
        }
        proof {
            assert(self@.subrange(0, self.elements.len() as int) =~= self@);
        }
        m
    }

    /// Changes one property of the element at `i` (see `BoardElement::apply_property`).
    pub fn apply_property_at(&mut self, i: usize, property: ElementProperty<F>) -> (stale: Option<
        SelectionType,
    >)
        requires
            i < old(self)@.len(),
            property_applies(old(self)@[i as int], property),
        ensures
            element_replaced(old(self)@, final(self)@, i as int),
            property_applied(old(self)@[i as int], final(self)@[i as int], property),
            stale == spec_stale_selection(property),
            final(self).version == old(self).version,
            final(self).width == old(self).width,
            final(self).height == old(self).height,
    {
        let stale = self.elements[i].apply_property(property);
        stale
    }

    /// Swaps two boundaries of the polygon element at `i`.
    pub fn swap_boundaries_at(&mut self, i: usize, a: usize, b: usize)
        requires
            i < old(self)@.len(),
            old(self)@[i as int].is_polygon(),
            a < old(self)@[i as int].boundaries.len(),
            b < old(self)@[i as int].boundaries.len(),
        ensures
            element_replaced(old(self)@, final(self)@, i as int),
            final(self)@[i as int] == (ElementView {
                boundaries: old(self)@[i as int].boundaries.update(
                    a as int,
                    old(self)@[i as int].boundaries[b as int],
                ).update(b as int, old(self)@[i as int].boundaries[a as int]),
                ..old(self)@[i as int]
            }),
            final(self).version == old(self).version,
            final(self).width == old(self).width,
            final(self).height == old(self).height,
    {
        let e = &mut self.elements[i];
        match e {
            BoardElement::KeyboardKey(d) => swap_points(&mut d.boundaries, a, b),
            BoardElement::MouseKey(d) => swap_points(&mut d.boundaries, a, b),
            BoardElement::MouseScroll(d) => swap_points(&mut d.boundaries, a, b),
            BoardElement::MouseSpeedIndicator(_) => {},
        }
    }

    /// Replaces the boundaries of the polygon element at `i`.
    pub fn set_boundaries_at(&mut self, i: usize, points: Vec<SerializablePoint<F>>)
        requires
            i < old(self)@.len(),
            old(self)@[i as int].is_polygon(),
        ensures
            element_replaced(old(self)@, final(self)@, i as int),
            final(self)@[i as int] == (ElementView { boundaries: points@, ..old(self)@[i as int] }),
            final(self).version == old(self).version,
            final(self).width == old(self).width,
            final(self).height == old(self).height,
    {
        let e = &mut self.elements[i];
        match e {
            BoardElement::KeyboardKey(d) => d.boundaries = points,
            BoardElement::MouseKey(d) => d.boundaries = points,
            BoardElement::MouseScroll(d) => d.boundaries = points,
            BoardElement::MouseSpeedIndicator(_) => {},
        }
    }

    /// Adds an element after the others.
    pub fn push_element(&mut self, element: BoardElement<F>)
        ensures
            final(self)@ == old(self)@.push(element@),
            final(self).version == old(self).version,
            final(self).width == old(self).width,
            final(self).height == old(self).height,
    {
        let ghost e = element@;
        self.elements.push(element);
        assert(self@ =~= old(self)@.push(e));
    }

    /// Removes the element at `i`.
    pub fn remove_element(&mut self, i: usize)
        requires
            i < old(self)@.len(),
        ensures
            final(self)@ == old(self)@.remove(i as int),
            final(self).version == old(self).version,
            final(self).width == old(self).width,
            final(self).height == old(self).height,
    {
        self.elements.remove(i);
        assert(self@ =~= old(self)@.remove(i as int));
    }
}

fn swap_points<F: Copy>(points: &mut Vec<SerializablePoint<F>>, a: usize, b: usize)
    requires
        a < old(points).len(),
        b < old(points).len(),
    ensures
        final(points)@ == old(points)@.update(a as int, old(points)@[b as int]).update(
            b as int,
            old(points)@[a as int],
        ),
{
    let pa = points[a];
    let pb = points[b];
    points.set(a, pb);
    points.set(b, pa);
}

/// The vertices at the ends of face `face` of an outline with `len` vertices: a face runs
/// from its own vertex to the next, and the last face back to the first vertex.
pub open spec fn spec_face_ends(face: usize, len: usize) -> (usize, usize) {
    (face, if face + 1 == len { 0 } else { (face + 1) as usize })
}

/// The two vertices that move with face `face` of an outline with `len` vertices (see
/// `spec_face_ends`).
pub fn face_ends(face: usize, len: usize) -> (r: (usize, usize))
    requires
        face < len,
    ensures
        r == spec_face_ends(face, len),
        r.0 < len && r.1 < len,
{
    if face == len - 1 {
        (face, 0)
    } else {
        (face, face + 1)
    }
}

} // verus!
