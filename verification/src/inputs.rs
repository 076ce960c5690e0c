use vstd::prelude::*;
use std::collections::HashMap;

verus! {

broadcast use vstd::std_specs::hash::group_hash_axioms;

/// Which list of an element's properties window a selection refers to.
#[derive(PartialEq, Eq, Structural, Clone, Copy, Debug)]
pub enum SelectionType {
    Boundary,
    Keycode,
}

/// The selected entry of the boundary and key code lists, by element index.
pub struct SelectionLists {
    pub boundary: HashMap<usize, usize>,
    pub keycode: HashMap<usize, usize>,
}

/// Model of the selections.
pub struct SelectionsView {
    pub boundary: Map<usize, usize>,
    pub keycode: Map<usize, usize>,
}

impl View for SelectionLists {
    type V = SelectionsView;

    closed spec fn view(&self) -> SelectionsView {
        SelectionsView { boundary: self.boundary@, keycode: self.keycode@ }
    }
}

impl SelectionsView {
    /// The selections after selecting `selection` in a list of `element`.
    pub open spec fn select(self, element: usize, list: SelectionType, selection: usize) -> Self {
        match list {
            SelectionType::Boundary => SelectionsView {
                boundary: self.boundary.insert(element, selection),
                ..self
            },
            SelectionType::Keycode => SelectionsView {
                keycode: self.keycode.insert(element, selection),
                ..self
            },
        }
    }

    /// The selections after clearing the selection of a list of `element`.
    pub open spec fn clear(self, element: usize, list: SelectionType) -> Self {
        match list {
            SelectionType::Boundary => SelectionsView {
                boundary: self.boundary.remove(element),
                ..self
            },
            SelectionType::Keycode => SelectionsView {
                keycode: self.keycode.remove(element),
                ..self
            },
        }
    }
}

impl SelectionLists {
    /// No selection.
    pub fn new() -> (s: SelectionLists)
        ensures
            s@.boundary == Map::<usize, usize>::empty(),
            s@.keycode == Map::<usize, usize>::empty(),
    {
        SelectionLists { boundary: HashMap::new(), keycode: HashMap::new() }
    }

    /// Selects an entry in a list of an element.
    pub fn select(&mut self, element: usize, list: SelectionType, selection: usize)
        ensures
            final(self)@ == old(self)@.select(element, list, selection),
    {
        match list {
            SelectionType::Boundary => {
                self.boundary.insert(element, selection);
            },
            SelectionType::Keycode => {
                self.keycode.insert(element, selection);
            },
        }
    }

    /// Clears the selection of a list of an element.
    pub fn clear(&mut self, element: usize, list: SelectionType)
        ensures
            final(self)@ == old(self)@.clear(element, list),
    {
        match list {
            SelectionType::Boundary => {
                self.boundary.remove(&element);
            },
            SelectionType::Keycode => {
                self.keycode.remove(&element);
            },
        }
    }
}

/// The values typed in the number inputs, by element index.
pub struct NumberInput {
    pub boundary_x: HashMap<usize, u32>,
    pub boundary_y: HashMap<usize, u32>,
    pub keycode: HashMap<usize, u32>,
    pub rectangle_position_x: HashMap<usize, u32>,
    pub rectangle_position_y: HashMap<usize, u32>,
    pub rectangle_size_x: HashMap<usize, u32>,
    pub rectangle_size_y: HashMap<usize, u32>,
}

/// A number typed in one of the number inputs of an element's windows.
#[derive(PartialEq, Eq, Structural, Clone, Copy, Debug)]
pub enum NumberInputType {
    BoundaryX(usize, u32),
    BoundaryY(usize, u32),
    Keycode(usize, u32),
    RectanglePositionX(usize, u32),
    RectanglePositionY(usize, u32),
    RectangleSizeX(usize, u32),
    RectangleSizeY(usize, u32),
}

/// Model of the number inputs.
pub struct NumberInputView {
    pub boundary_x: Map<usize, u32>,
    pub boundary_y: Map<usize, u32>,
    pub keycode: Map<usize, u32>,
    pub rectangle_position_x: Map<usize, u32>,
    pub rectangle_position_y: Map<usize, u32>,
    pub rectangle_size_x: Map<usize, u32>,
    pub rectangle_size_y: Map<usize, u32>,
}

impl View for NumberInput {
    type V = NumberInputView;

    closed spec fn view(&self) -> NumberInputView {
        NumberInputView {
            boundary_x: self.boundary_x@,
            boundary_y: self.boundary_y@,
            keycode: self.keycode@,
            rectangle_position_x: self.rectangle_position_x@,
            rectangle_position_y: self.rectangle_position_y@,
            rectangle_size_x: self.rectangle_size_x@,
            rectangle_size_y: self.rectangle_size_y@,
        }
    }
}

impl NumberInputView {
    /// The inputs after a number was typed.
    pub open spec fn set(self, input: NumberInputType) -> Self {
        match input {
            NumberInputType::BoundaryX(e, v) => NumberInputView {
                boundary_x: self.boundary_x.insert(e, v),
                ..self
            },
            NumberInputType::BoundaryY(e, v) => NumberInputView {
                boundary_y: self.boundary_y.insert(e, v),
                ..self
            },
            NumberInputType::Keycode(e, v) => NumberInputView {
                keycode: self.keycode.insert(e, v),
                ..self
            },
            NumberInputType::RectanglePositionX(e, v) => NumberInputView {
                rectangle_position_x: self.rectangle_position_x.insert(e, v),
                ..self
            },
            NumberInputType::RectanglePositionY(e, v) => NumberInputView {
                rectangle_position_y: self.rectangle_position_y.insert(e, v),
                ..self
            },
            NumberInputType::RectangleSizeX(e, v) => NumberInputView {
                rectangle_size_x: self.rectangle_size_x.insert(e, v),
                ..self
            },
            NumberInputType::RectangleSizeY(e, v) => NumberInputView {
                rectangle_size_y: self.rectangle_size_y.insert(e, v),
                ..self
            },
        }
    }
}

/// The value of a number input: what was typed, or 0.
pub open spec fn input_or_zero(m: Map<usize, u32>, element: usize) -> u32 {
    if m.contains_key(element) {
        m[element]
    } else {
        0
    }
}

impl NumberInput {
    /// Empty inputs.
    pub fn new() -> (n: NumberInput)
        ensures
            n@ == (NumberInputView {
                boundary_x: Map::empty(),
                boundary_y: Map::empty(),
                keycode: Map::empty(),
                rectangle_position_x: Map::empty(),
                rectangle_position_y: Map::empty(),
                rectangle_size_x: Map::empty(),
                rectangle_size_y: Map::empty(),
            }),
    {
        let n = NumberInput {
            boundary_x: HashMap::new(),
            boundary_y: HashMap::new(),
            keycode: HashMap::new(),
            rectangle_position_x: HashMap::new(),
            rectangle_position_y: HashMap::new(),
            rectangle_size_x: HashMap::new(),
            rectangle_size_y: HashMap::new(),
        };
        assert(n@.boundary_x =~= Map::empty());
        n
    }

    /// Records a typed number.
    pub fn set(&mut self, input: NumberInputType)
        ensures
            final(self)@ == old(self)@.set(input),
    {
        match input {
            NumberInputType::BoundaryX(e, v) => {
                self.boundary_x.insert(e, v);
            },
            NumberInputType::BoundaryY(e, v) => {
                self.boundary_y.insert(e, v);
            },
            NumberInputType::Keycode(e, v) => {
                self.keycode.insert(e, v);
            },
            NumberInputType::RectanglePositionX(e, v) => {
                self.rectangle_position_x.insert(e, v);
            },
            NumberInputType::RectanglePositionY(e, v) => {
                self.rectangle_position_y.insert(e, v);
            },
            NumberInputType::RectangleSizeX(e, v) => {
                self.rectangle_size_x.insert(e, v);
            },
            NumberInputType::RectangleSizeY(e, v) => {
                self.rectangle_size_y.insert(e, v);
            },
        }
    }

    /// Types a captured code into the key code input of each of `elements`.
    pub fn capture_keycode(&mut self, elements: &Vec<usize>, code: u32)
        ensures
            final(self)@ == (NumberInputView {
                keycode: old(self)@.keycode.union_prefer_right(
                    Map::new(|i: usize| elements@.contains(i), |i: usize| code),
                ),
                ..old(self)@
            }),
    {
        let ghost start = self@;
        let mut j: usize = 0;
        proof {
            assert(start.keycode.union_prefer_right(
                Map::new(|k: usize| elements@.subrange(0, 0).contains(k), |k: usize| code),
            ) =~= start.keycode);
        }
        while j < elements.len()
            invariant
                0 <= j <= elements.len(),
                self@ == (NumberInputView {
                    keycode: start.keycode.union_prefer_right(
                        Map::new(|k: usize| elements@.subrange(0, j as int).contains(k), |k: usize| code),
                    ),
                    ..start
                }),
            decreases elements.len() - j,
        {
            let element = elements[j];
            self.keycode.insert(element, code);
            proof {
                let before = elements@.subrange(0, j as int);
                let after = elements@.subrange(0, j + 1);
                assert(after =~= before.push(element));
                assert forall|k: usize| after.contains(k) <==> before.contains(k) || k == element by {
                    if before.contains(k) {
                        let m = choose|m: int| 0 <= m < before.len() && before[m] == k;
                        assert(after[m] == k);
                    }
                    if k == element {
                        assert(after[j as int] == k);
                    }
                    if after.contains(k) && k != element {
                        let m = choose|m: int| 0 <= m < after.len() && after[m] == k;
                        assert(m < j);
                        assert(before[m] == k);
                    }
                }
                assert(self@.keycode =~= start.keycode.union_prefer_right(
                    Map::new(|k: usize| after.contains(k), |k: usize| code),
                ));
            }
            j = j + 1;
        }
        proof {
            assert(elements@.subrange(0, elements.len() as int) =~= elements@);
        }
    }

    /// The value of a number input: what was typed, or 0.
    pub fn value_or_zero(m: &HashMap<usize, u32>, element: usize) -> (v: u32)
        ensures
            v == input_or_zero(m@, element),
    {
        match m.get(&element) {
            Some(v) => *v,
            None => 0,
        }
    }
}

/// The texts typed in the text inputs of the style and save windows.
pub struct TextInput {
    pub keyboard_background_image: String,
    pub save_keyboard_as_category: String,
    pub save_keyboard_as_name: String,
    pub save_style_as_name: String,
    pub default_loose_key_background_image: String,
    pub default_loose_key_font_family: String,
    pub default_pressed_key_background_image: String,
    pub default_pressed_key_font_family: String,
    pub loose_background_image: HashMap<u32, String>,
    pub loose_font_family: HashMap<u32, String>,
    pub pressed_background_image: HashMap<u32, String>,
    pub pressed_font_family: HashMap<u32, String>,
}

/// A text input.
#[derive(PartialEq, Eq, Structural, Clone, Copy, Debug)]
pub enum TextInputType {
    KeyboardBackgroundImage,
    SaveKeyboardAsCategory,
    SaveKeyboardAsName,
    SaveStyleAsName,
    DefaultLooseKeyBackgroundImage,
    DefaultLooseKeyFontFamily,
    DefaultPressedKeyBackgroundImage,
    DefaultPressedKeyFontFamily,
    LooseBackgroundImage(u32),
    LooseFontFamily(u32),
    PressedBackgroundImage(u32),
    PressedFontFamily(u32),
}

/// Model of the text inputs.
pub struct TextInputView {
    pub keyboard_background_image: Seq<char>,
    pub save_keyboard_as_category: Seq<char>,
    pub save_keyboard_as_name: Seq<char>,
    pub save_style_as_name: Seq<char>,
    pub default_loose_key_background_image: Seq<char>,
    pub default_loose_key_font_family: Seq<char>,
    pub default_pressed_key_background_image: Seq<char>,
    pub default_pressed_key_font_family: Seq<char>,
    pub loose_background_image: Map<u32, Seq<char>>,
    pub loose_font_family: Map<u32, Seq<char>>,
    pub pressed_background_image: Map<u32, Seq<char>>,
    pub pressed_font_family: Map<u32, Seq<char>>,
}

pub open spec fn string_map_view(m: Map<u32, String>) -> Map<u32, Seq<char>> {
    m.map_values(|s: String| s@)
}

impl View for TextInput {
    type V = TextInputView;

    closed spec fn view(&self) -> TextInputView {
        TextInputView {
            keyboard_background_image: self.keyboard_background_image@,
            save_keyboard_as_category: self.save_keyboard_as_category@,
            save_keyboard_as_name: self.save_keyboard_as_name@,
            save_style_as_name: self.save_style_as_name@,
            default_loose_key_background_image: self.default_loose_key_background_image@,
            default_loose_key_font_family: self.default_loose_key_font_family@,
            default_pressed_key_background_image: self.default_pressed_key_background_image@,
            default_pressed_key_font_family: self.default_pressed_key_font_family@,
            loose_background_image: string_map_view(self.loose_background_image@),
            loose_font_family: string_map_view(self.loose_font_family@),
            pressed_background_image: string_map_view(self.pressed_background_image@),
            pressed_font_family: string_map_view(self.pressed_font_family@),
        }
    }
}

impl TextInputView {
    /// What is typed in an input; an empty text for a per-element input never typed in.
    pub open spec fn value(self, input: TextInputType) -> Seq<char> {
        match input {
            TextInputType::KeyboardBackgroundImage => self.keyboard_background_image,
            TextInputType::SaveKeyboardAsCategory => self.save_keyboard_as_category,
            TextInputType::SaveKeyboardAsName => self.save_keyboard_as_name,
            TextInputType::SaveStyleAsName => self.save_style_as_name,
            TextInputType::DefaultLooseKeyBackgroundImage => self.default_loose_key_background_image,
            TextInputType::DefaultLooseKeyFontFamily => self.default_loose_key_font_family,
            TextInputType::DefaultPressedKeyBackgroundImage => self.default_pressed_key_background_image,
            TextInputType::DefaultPressedKeyFontFamily => self.default_pressed_key_font_family,
            TextInputType::LooseBackgroundImage(id) => text_or_empty(self.loose_background_image, id),
            TextInputType::LooseFontFamily(id) => text_or_empty(self.loose_font_family, id),
            TextInputType::PressedBackgroundImage(id) => text_or_empty(
                self.pressed_background_image,
                id,
            ),
            TextInputType::PressedFontFamily(id) => text_or_empty(self.pressed_font_family, id),
        }
    }

    /// The inputs after typing `value` in one of them.
    pub open spec fn set(self, input: TextInputType, value: Seq<char>) -> Self {
        match input {
            TextInputType::KeyboardBackgroundImage => TextInputView {
                keyboard_background_image: value,
                ..self
            },
            TextInputType::SaveKeyboardAsCategory => TextInputView {
                save_keyboard_as_category: value,
                ..self
            },
            TextInputType::SaveKeyboardAsName => TextInputView {
                save_keyboard_as_name: value,
                ..self
            },
            TextInputType::SaveStyleAsName => TextInputView { save_style_as_name: value, ..self },
            TextInputType::DefaultLooseKeyBackgroundImage => TextInputView {
                default_loose_key_background_image: value,
                ..self
            },
            TextInputType::DefaultLooseKeyFontFamily => TextInputView {
                default_loose_key_font_family: value,
                ..self
            },
            TextInputType::DefaultPressedKeyBackgroundImage => TextInputView {
                default_pressed_key_background_image: value,
                ..self
            },
            TextInputType::DefaultPressedKeyFontFamily => TextInputView {
                default_pressed_key_font_family: value,
                ..self
            },
            TextInputType::LooseBackgroundImage(id) => TextInputView {
                loose_background_image: self.loose_background_image.insert(id, value),
                ..self
            },
            TextInputType::LooseFontFamily(id) => TextInputView {
                loose_font_family: self.loose_font_family.insert(id, value),
                ..self
            },
            TextInputType::PressedBackgroundImage(id) => TextInputView {
                pressed_background_image: self.pressed_background_image.insert(id, value),
                ..self
            },
            TextInputType::PressedFontFamily(id) => TextInputView {
                pressed_font_family: self.pressed_font_family.insert(id, value),
                ..self
            },
        }
    }
}

/// The text of a per-element input: what was typed, or nothing.
pub open spec fn text_or_empty(m: Map<u32, Seq<char>>, id: u32) -> Seq<char> {
    if m.contains_key(id) {
        m[id]
    } else {
        Seq::empty()
    }
}

proof fn lemma_string_map_insert(m: Map<u32, String>, k: u32, v: String)
    ensures
        string_map_view(m.insert(k, v)) == string_map_view(m).insert(k, v@),
{
    assert(string_map_view(m.insert(k, v)) =~= string_map_view(m).insert(k, v@));
}

fn insert_text(m: &mut HashMap<u32, String>, k: u32, v: String)
    ensures
        string_map_view(final(m)@) == string_map_view(old(m)@).insert(k, v@),
{
    proof {
        lemma_string_map_insert(m@, k, v);
    }
    m.insert(k, v);
}

impl TextInput {
    /// Empty inputs.
    pub fn new() -> (t: TextInput)
        ensures
            t@.keyboard_background_image == Seq::<char>::empty(),
            t@.save_keyboard_as_category == Seq::<char>::empty(),
            t@.save_keyboard_as_name == Seq::<char>::empty(),
            t@.save_style_as_name == Seq::<char>::empty(),
            t@.default_loose_key_background_image == Seq::<char>::empty(),
            t@.default_loose_key_font_family == Seq::<char>::empty(),
            t@.default_pressed_key_background_image == Seq::<char>::empty(),
            t@.default_pressed_key_font_family == Seq::<char>::empty(),
            t@.loose_background_image == Map::<u32, Seq<char>>::empty(),
            t@.loose_font_family == Map::<u32, Seq<char>>::empty(),
            t@.pressed_background_image == Map::<u32, Seq<char>>::empty(),
            t@.pressed_font_family == Map::<u32, Seq<char>>::empty(),
    {
        let t = TextInput {
            keyboard_background_image: String::new(),
            save_keyboard_as_category: String::new(),
            save_keyboard_as_name: String::new(),
            save_style_as_name: String::new(),
            default_loose_key_background_image: String::new(),
            default_loose_key_font_family: String::new(),
            default_pressed_key_background_image: String::new(),
            default_pressed_key_font_family: String::new(),
            loose_background_image: HashMap::new(),
            loose_font_family: HashMap::new(),
            pressed_background_image: HashMap::new(),
            pressed_font_family: HashMap::new(),
        };
        assert(t@.loose_background_image =~= Map::<u32, Seq<char>>::empty());
        assert(t@.loose_font_family =~= Map::<u32, Seq<char>>::empty());
        assert(t@.pressed_background_image =~= Map::<u32, Seq<char>>::empty());
        assert(t@.pressed_font_family =~= Map::<u32, Seq<char>>::empty());
        t
    }

    /// Records the text typed in one of the inputs.
    pub fn set(&mut self, input: TextInputType, value: String)
        ensures
            final(self)@ == old(self)@.set(input, value@),
    {
        match input {
            TextInputType::KeyboardBackgroundImage => self.keyboard_background_image = value,
            TextInputType::SaveKeyboardAsCategory => self.save_keyboard_as_category = value,
            TextInputType::SaveKeyboardAsName => self.save_keyboard_as_name = value,
            TextInputType::SaveStyleAsName => self.save_style_as_name = value,
            TextInputType::DefaultLooseKeyBackgroundImage => self.default_loose_key_background_image =
                value,
            TextInputType::DefaultLooseKeyFontFamily => self.default_loose_key_font_family = value,
            TextInputType::DefaultPressedKeyBackgroundImage => self.default_pressed_key_background_image =
                value,
            TextInputType::DefaultPressedKeyFontFamily => self.default_pressed_key_font_family =
                value,
            TextInputType::LooseBackgroundImage(id) => insert_text(
                &mut self.loose_background_image,
                id,
                value,
            ),
            TextInputType::LooseFontFamily(id) => insert_text(
                &mut self.loose_font_family,
                id,
                value,
            ),
            TextInputType::PressedBackgroundImage(id) => insert_text(
                &mut self.pressed_background_image,
                id,
                value,
            ),
            TextInputType::PressedFontFamily(id) => insert_text(
                &mut self.pressed_font_family,
                id,
                value,
            ),
        }
    }

    /// What is typed in an input (see `TextInputView::value`).
    pub fn value(&self, input: TextInputType) -> (s: String)
        ensures
            s@ == self@.value(input),
    {
        match input {
            TextInputType::KeyboardBackgroundImage => self.keyboard_background_image.clone(),
            TextInputType::SaveKeyboardAsCategory => self.save_keyboard_as_category.clone(),
            TextInputType::SaveKeyboardAsName => self.save_keyboard_as_name.clone(),
            TextInputType::SaveStyleAsName => self.save_style_as_name.clone(),
            TextInputType::DefaultLooseKeyBackgroundImage => self.default_loose_key_background_image.clone(),
            TextInputType::DefaultLooseKeyFontFamily => self.default_loose_key_font_family.clone(),
            TextInputType::DefaultPressedKeyBackgroundImage => self.default_pressed_key_background_image.clone(),
            TextInputType::DefaultPressedKeyFontFamily => self.default_pressed_key_font_family.clone(),
            TextInputType::LooseBackgroundImage(id) => TextInput::text_or_empty(
                &self.loose_background_image,
                id,
            ),
            TextInputType::LooseFontFamily(id) => TextInput::text_or_empty(
                &self.loose_font_family,
                id,
            ),
            TextInputType::PressedBackgroundImage(id) => TextInput::text_or_empty(
                &self.pressed_background_image,
                id,
            ),
            TextInputType::PressedFontFamily(id) => TextInput::text_or_empty(
                &self.pressed_font_family,
                id,
            ),
        }
    }

    /// The text typed in a per-element input, or an empty text.
    pub fn text_or_empty(m: &HashMap<u32, String>, id: u32) -> (s: String)
        ensures
            s@ == text_or_empty(string_map_view(m@), id),
    {
        match m.get(&id) {
            Some(s) => s.clone(),
            None => String::new(),
        }
    }
}

} // verus!
