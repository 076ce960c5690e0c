use vstd::prelude::*;
use crate::board::{BoardView, NuhxBoard};
use crate::layout::{BoardElement, ElementKind, ElementView};
use crate::windows::{AppWindow, WindowId};

verus! {

broadcast use vstd::std_specs::hash::group_hash_axioms;

/// The index of the first element, from `i` on, with the given id.
pub open spec fn first_with_id<F>(elements: Seq<ElementView<F>>, id: u32, i: int) -> Option<int>
    decreases elements.len() - i,
{
    if i < 0 || i >= elements.len() {
        None
    } else if elements[i].id == id {
        Some(i)
    } else {
        first_with_id(elements, id, i + 1)
    }
}

/// Whether the style window of the element `id` is about a key style: so it is when the
/// element has a style of its own that is a key style, or, without one, when the element is
/// not a mouse speed indicator.
pub open spec fn styles_a_key<F>(b: BoardView<F>, id: u32) -> bool {
    if b.style.element_styles.contains_key(id) {
        b.style.element_styles[id] is Key
    } else {
        b.elements[first_with_id(b.elements, id, 0)->0].is_polygon()
    }
}

/// A window's title.
pub open spec fn window_title<F>(b: BoardView<F>, w: WindowId) -> Seq<char> {
    match w {
        WindowId::Main => b.settings.window_title,
        WindowId::LoadKeyboard => "Load Keyboard"@,
        WindowId::SettingsWindow => "Settings"@,
        WindowId::KeyboardProperties => "Keyboard Properties"@,
        WindowId::SaveDefinitionAs => "Save Definition As"@,
        WindowId::SaveStyleAs => "Save Style As"@,
        WindowId::KeyboardStyle => "Keyboard Style"@,
        WindowId::ElementProperties(i) => match b.elements[i as int].kind {
            ElementKind::KeyboardKey => "Keyboard Key Properties"@,
            ElementKind::MouseKey => "Mouse Key Properties"@,
            ElementKind::MouseScroll => "Mouse Scroll Properties"@,
            ElementKind::MouseSpeedIndicator => "Mouse Speed Indicator Properties"@,
        },
        WindowId::RectangleDialog(_) => "Rectangle"@,
        WindowId::ElementStyle(id) => if styles_a_key(b, id) {
            "Key Style"@
        } else {
            "Mouse Speed Indicator Style"@
        },
        WindowId::UnsavedChangesPopup(_) => "Discard changes"@,
        WindowId::ErrorPopup(_) => "Error"@,
    }
}

/// A window's title can be given: an element's properties window names an element, and an
/// element's style window an element id, of the layout.
pub open spec fn window_title_defined<F>(b: BoardView<F>, w: WindowId) -> bool {
    match w {
        WindowId::ElementProperties(i) => i < b.elements.len(),
        WindowId::ElementStyle(id) => first_with_id(b.elements, id, 0) is Some,
        _ => true,
    }
}

impl<F: Copy> NuhxBoard<F> {
    /// The index of the first element with the given id (see `first_with_id`).
    fn find_element(&self, id: u32) -> (r: Option<usize>)
        ensures
            r matches Some(k) ==> first_with_id(self@.elements, id, 0) == Some(k as int) && k
                < self@.elements.len(),
            r is None ==> first_with_id(self@.elements, id, 0) is None,
    {
        let mut i: usize = 0;
        while i < self.layout.elements.len()
            invariant
                0 <= i <= self@.elements.len(),
                self@.elements.len() == self.layout.elements@.len(),
                first_with_id(self@.elements, id, 0) == first_with_id(self@.elements, id, i as int),
            decreases self.layout.elements.len() - i,
        {
            assert(self@.elements[i as int] == self.layout.elements@[i as int]@);
            if self.layout.elements[i].id() == id {
                return Some(i);
            }
            i = i + 1;
        }
        None
    }

    fn element_properties_title(&self, index: usize) -> (s: String)
        requires
            index < self@.elements.len(),
        ensures
            s@ == window_title(self@, WindowId::ElementProperties(index)),
    {
        let e = &self.layout.elements[index];
        assert(self@.elements[index as int] == e@);
        match e {
            BoardElement::KeyboardKey(_) => String::from_str("Keyboard Key Properties"),
            BoardElement::MouseKey(_) => String::from_str("Mouse Key Properties"),
            BoardElement::MouseScroll(_) => String::from_str("Mouse Scroll Properties"),
            BoardElement::MouseSpeedIndicator(_) => String::from_str(
                "Mouse Speed Indicator Properties",
            ),
        }
    }

    fn element_style_title(&self, id: u32) -> (s: String)
        requires
            first_with_id(self@.elements, id, 0) is Some,
        ensures
            s@ == window_title(self@, WindowId::ElementStyle(id)),
    {
        let i = match self.find_element(id) {
            Some(i) => i,
            None => 0,
        };
        let polygon = match &self.layout.elements[i] {
            BoardElement::MouseSpeedIndicator(_) => false,
            _ => true,
        };
        assert(self@.elements[i as int] == self.layout.elements@[i as int]@);
        let key = match self.style.element_style_is_key(id) {
            Some(k) => k,
            None => polygon,
        };

        if key {
            String::from_str("Key Style")
        } else {
            String::from_str("Mouse Speed Indicator Style")
        }
    }

    /// A window's title (see `window_title`).
    pub fn window_title(&self, window: &AppWindow) -> (s: String)
        requires
            window_title_defined(self@, window@),
        ensures
            s@ == window_title(self@, window@),
    {
        match window {
            AppWindow::Main(_) => self.settings.window_title.clone(),
            AppWindow::LoadKeyboard(_) => String::from_str("Load Keyboard"),
            AppWindow::SettingsWindow(_) => String::from_str("Settings"),
            AppWindow::KeyboardProperties(_) => String::from_str("Keyboard Properties"),
            AppWindow::SaveDefinitionAs(_) => String::from_str("Save Definition As"),
            AppWindow::SaveStyleAs(_) => String::from_str("Save Style As"),
            AppWindow::KeyboardStyle(_) => String::from_str("Keyboard Style"),
            AppWindow::ElementProperties(w) => self.element_properties_title(w.index),
            AppWindow::RectangleDialog(_) => String::from_str("Rectangle"),
            AppWindow::ElementStyle(w) => self.element_style_title(w.id),
            AppWindow::UnsavedChangesPopup(_) => String::from_str("Discard changes"),
            AppWindow::ErrorPopup(_) => String::from_str("Error"),
        }
    }
}

} // verus!
