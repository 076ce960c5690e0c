use vstd::prelude::*;
use crate::options::{text_le, text_le_exec};

verus! {

/// A style that can be chosen for a layout: the built-in default, a global style, or a style
/// of the layout itself.
pub enum StyleChoice {
    Default,
    Global(String),
    Custom(String),
}

/// Model of a style choice.
pub enum StyleChoiceView {
    Default,
    Global(Seq<char>),
    Custom(Seq<char>),
}

impl View for StyleChoice {
    type V = StyleChoiceView;

    open spec fn view(&self) -> StyleChoiceView {
        match self {
            StyleChoice::Default => StyleChoiceView::Default,
            StyleChoice::Global(s) => StyleChoiceView::Global(s@),
            StyleChoice::Custom(s) => StyleChoiceView::Custom(s@),
        }
    }
}

/// How a style choice is shown in the list of styles.
pub open spec fn spec_style_choice_display(c: StyleChoiceView) -> Seq<char> {
    match c {
        StyleChoiceView::Default => "Global Default"@,
        StyleChoiceView::Custom(s) => s,
        StyleChoiceView::Global(s) => "Global: "@ + s,
    }
}

/// The name a style is saved under: a global style's own name, otherwise the shown name.
pub open spec fn spec_style_choice_name(c: StyleChoiceView) -> Seq<char> {
    match c {
        StyleChoiceView::Global(s) => s,
        _ => spec_style_choice_display(c),
    }
}

impl StyleChoice {
    pub fn is_global(&self) -> (r: bool)
        ensures
            r == (self@ is Global),
    {
        match self {
            StyleChoice::Global(_) => true,
            _ => false,
        }
    }

    pub fn is_default(&self) -> (r: bool)
        ensures
            r == (self@ is Default),
    {
        match self {
            StyleChoice::Default => true,
            _ => false,
        }
    }

    /// The text shown for this choice.
    pub fn to_string(&self) -> (s: String)
        ensures
            s@ == spec_style_choice_display(self@),
    {
        match self {
            StyleChoice::Default => String::from_str("Global Default"),
            StyleChoice::Custom(s) => s.clone(),
            StyleChoice::Global(s) => {
                let mut r = String::from_str("Global: ");
                r.append(s.as_str());
                r
            },
        }
    }

    /// The name to save this style under.
    pub fn name(&self) -> (s: String)
        ensures
            s@ == spec_style_choice_name(self@),
    {
        match self {
            StyleChoice::Global(name) => name.clone(),
            _ => self.to_string(),
        }
    }

    /// Whether this choice comes before `other` or level with it: choices are ordered by the
    /// text shown for them.
    pub fn text_le(&self, other: &StyleChoice) -> (r: bool)
        ensures
            r == text_le(spec_style_choice_display(self@), spec_style_choice_display(other@)),
    {
        let a = self.to_string();
        let b = other.to_string();
        text_le_exec(a.as_str(), b.as_str())
    }

    /// A copy of the choice.
    pub fn duplicate(&self) -> (c: StyleChoice)
        ensures
            c@ == self@,
    {
        match self {
            StyleChoice::Default => StyleChoice::Default,
            StyleChoice::Global(s) => StyleChoice::Global(s.clone()),
            StyleChoice::Custom(s) => StyleChoice::Custom(s.clone()),
        }
    }
}

} // verus!
