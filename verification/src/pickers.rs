use vstd::prelude::*;
use std::collections::HashMap;

verus! {

broadcast use vstd::std_specs::hash::group_hash_axioms;

/// A color picker of the style windows. The layout-wide ones are single; the per-element
/// ones are by element id.
#[derive(PartialEq, Eq, Structural, Clone, Copy, Debug)]
pub enum ColorPicker {
    KeyboardBackground,
    DefaultMouseSpeedIndicator1,
    DefaultMouseSpeedIndicator2,
    DefaultLooseBackground,
    DefaultLooseText,
    DefaultLooseOutline,
    DefaultPressedBackground,
    DefaultPressedText,
    DefaultPressedOutline,
    LooseBackground(u32),
    LooseText(u32),
    LooseOutline(u32),
    PressedBackground(u32),
    PressedText(u32),
    PressedOutline(u32),
    MouseSpeedIndicator1(u32),
    MouseSpeedIndicator2(u32),
}

/// Which color pickers are open.
pub struct ColorPickers {
    pub keyboard_background: bool,
    pub default_mouse_speed_indicator_1: bool,
    pub default_mouse_speed_indicator_2: bool,
    pub default_loose_background: bool,
    pub default_loose_text: bool,
    pub default_loose_outline: bool,
    pub default_pressed_background: bool,
    pub default_pressed_text: bool,
    pub default_pressed_outline: bool,
    pub loose_background: HashMap<u32, bool>,
    pub loose_text: HashMap<u32, bool>,
    pub loose_outline: HashMap<u32, bool>,
    pub pressed_background: HashMap<u32, bool>,
    pub pressed_text: HashMap<u32, bool>,
    pub pressed_outline: HashMap<u32, bool>,
    pub mouse_speed_indicator_1: HashMap<u32, bool>,
    pub mouse_speed_indicator_2: HashMap<u32, bool>,
}

/// Model of the color pickers: the single ones, and the per-element maps.
pub struct PickersView {
    pub keyboard_background: bool,
    pub default_mouse_speed_indicator_1: bool,
    pub default_mouse_speed_indicator_2: bool,
    pub default_loose_background: bool,
    pub default_loose_text: bool,
    pub default_loose_outline: bool,
    pub default_pressed_background: bool,
    pub default_pressed_text: bool,
    pub default_pressed_outline: bool,
    pub loose_background: Map<u32, bool>,
    pub loose_text: Map<u32, bool>,
    pub loose_outline: Map<u32, bool>,
    pub pressed_background: Map<u32, bool>,
    pub pressed_text: Map<u32, bool>,
    pub pressed_outline: Map<u32, bool>,
    pub mouse_speed_indicator_1: Map<u32, bool>,
    pub mouse_speed_indicator_2: Map<u32, bool>,
}

impl View for ColorPickers {
    type V = PickersView;

    open spec fn view(&self) -> PickersView {
        PickersView {
            keyboard_background: self.keyboard_background,
            default_mouse_speed_indicator_1: self.default_mouse_speed_indicator_1,
            default_mouse_speed_indicator_2: self.default_mouse_speed_indicator_2,
            default_loose_background: self.default_loose_background,
            default_loose_text: self.default_loose_text,
            default_loose_outline: self.default_loose_outline,
            default_pressed_background: self.default_pressed_background,
            default_pressed_text: self.default_pressed_text,
            default_pressed_outline: self.default_pressed_outline,
            loose_background: self.loose_background@,
            loose_text: self.loose_text@,
            loose_outline: self.loose_outline@,
            pressed_background: self.pressed_background@,
            pressed_text: self.pressed_text@,
            pressed_outline: self.pressed_outline@,
            mouse_speed_indicator_1: self.mouse_speed_indicator_1@,
            mouse_speed_indicator_2: self.mouse_speed_indicator_2@,
        }
    }
}

/// The state of a per-element picker: closed unless recorded otherwise.
pub open spec fn map_state(m: Map<u32, bool>, id: u32) -> bool {
    if m.contains_key(id) {
        m[id]
    } else {
        false
    }
}

impl PickersView {
    /// Whether the picker is open.
    pub open spec fn state(self, picker: ColorPicker) -> bool {
        match picker {
            ColorPicker::KeyboardBackground => self.keyboard_background,
            ColorPicker::DefaultMouseSpeedIndicator1 => self.default_mouse_speed_indicator_1,
            ColorPicker::DefaultMouseSpeedIndicator2 => self.default_mouse_speed_indicator_2,
            ColorPicker::DefaultLooseBackground => self.default_loose_background,
            ColorPicker::DefaultLooseText => self.default_loose_text,
            ColorPicker::DefaultLooseOutline => self.default_loose_outline,
            ColorPicker::DefaultPressedBackground => self.default_pressed_background,
            ColorPicker::DefaultPressedText => self.default_pressed_text,
            ColorPicker::DefaultPressedOutline => self.default_pressed_outline,
            ColorPicker::LooseBackground(id) => map_state(self.loose_background, id),
            ColorPicker::LooseText(id) => map_state(self.loose_text, id),
            ColorPicker::LooseOutline(id) => map_state(self.loose_outline, id),
            ColorPicker::PressedBackground(id) => map_state(self.pressed_background, id),
            ColorPicker::PressedText(id) => map_state(self.pressed_text, id),
            ColorPicker::PressedOutline(id) => map_state(self.pressed_outline, id),
            ColorPicker::MouseSpeedIndicator1(id) => map_state(self.mouse_speed_indicator_1, id),
            ColorPicker::MouseSpeedIndicator2(id) => map_state(self.mouse_speed_indicator_2, id),
        }
    }

    /// The pickers with the given one recorded as `open` (a per-element picker gets an entry).
    pub open spec fn set(self, picker: ColorPicker, open: bool) -> PickersView {
        match picker {
            ColorPicker::KeyboardBackground => PickersView { keyboard_background: open, ..self },
            ColorPicker::DefaultMouseSpeedIndicator1 => PickersView {
                default_mouse_speed_indicator_1: open,
                ..self
            },
            ColorPicker::DefaultMouseSpeedIndicator2 => PickersView {
                default_mouse_speed_indicator_2: open,
                ..self
            },
            ColorPicker::DefaultLooseBackground => PickersView {
                default_loose_background: open,
                ..self
            },
            ColorPicker::DefaultLooseText => PickersView { default_loose_text: open, ..self },
            ColorPicker::DefaultLooseOutline => PickersView {
                default_loose_outline: open,
                ..self
            },
            ColorPicker::DefaultPressedBackground => PickersView {
                default_pressed_background: open,
                ..self
            },
            ColorPicker::DefaultPressedText => PickersView { default_pressed_text: open, ..self },
            ColorPicker::DefaultPressedOutline => PickersView {
                default_pressed_outline: open,
                ..self
            },
            ColorPicker::LooseBackground(id) => PickersView {
                loose_background: self.loose_background.insert(id, open),
                ..self
            },
            ColorPicker::LooseText(id) => PickersView {
                loose_text: self.loose_text.insert(id, open),
                ..self
            },
            ColorPicker::LooseOutline(id) => PickersView {
                loose_outline: self.loose_outline.insert(id, open),
                ..self
            },
            ColorPicker::PressedBackground(id) => PickersView {
                pressed_background: self.pressed_background.insert(id, open),
                ..self
            },
            ColorPicker::PressedText(id) => PickersView {
                pressed_text: self.pressed_text.insert(id, open),
                ..self
            },
            ColorPicker::PressedOutline(id) => PickersView {
                pressed_outline: self.pressed_outline.insert(id, open),
                ..self
            },
            ColorPicker::MouseSpeedIndicator1(id) => PickersView {
                mouse_speed_indicator_1: self.mouse_speed_indicator_1.insert(id, open),
                ..self
            },
            ColorPicker::MouseSpeedIndicator2(id) => PickersView {
                mouse_speed_indicator_2: self.mouse_speed_indicator_2.insert(id, open),
                ..self
            },
        }
    }
}

/// Every picker closed, and no per-element picker recorded.
pub open spec fn closed_pickers() -> PickersView {
    PickersView {
        keyboard_background: false,
        default_mouse_speed_indicator_1: false,
        default_mouse_speed_indicator_2: false,
        default_loose_background: false,
        default_loose_text: false,
        default_loose_outline: false,
        default_pressed_background: false,
        default_pressed_text: false,
        default_pressed_outline: false,
        loose_background: Map::empty(),
        loose_text: Map::empty(),
        loose_outline: Map::empty(),
        pressed_background: Map::empty(),
        pressed_text: Map::empty(),
        pressed_outline: Map::empty(),
        mouse_speed_indicator_1: Map::empty(),
        mouse_speed_indicator_2: Map::empty(),
    }
}

impl Default for ColorPickers {
    /// All pickers closed (see `ColorPickers::new`).
    fn default() -> (p: ColorPickers)
        ensures
            p@ == closed_pickers(),
    {
        ColorPickers::new()
    }
}

impl ColorPickers {
    /// All pickers closed, and no per-element picker recorded yet.
    pub fn new() -> (p: ColorPickers)
        ensures
            forall|picker: ColorPicker| !#[trigger] p@.state(picker),
            p@ == closed_pickers(),
    {
        ColorPickers {
            keyboard_background: false,
            default_mouse_speed_indicator_1: false,
            default_mouse_speed_indicator_2: false,
            default_loose_background: false,
            default_loose_text: false,
            default_loose_outline: false,
            default_pressed_background: false,
            default_pressed_text: false,
            default_pressed_outline: false,
            loose_background: HashMap::new(),
            loose_text: HashMap::new(),
            loose_outline: HashMap::new(),
            pressed_background: HashMap::new(),
            pressed_text: HashMap::new(),
            pressed_outline: HashMap::new(),
            mouse_speed_indicator_1: HashMap::new(),
            mouse_speed_indicator_2: HashMap::new(),
        }
    }

    /// Access to a picker's open flag. A per-element picker that has no entry gets one, closed.
    pub fn get_mut(&mut self, picker: ColorPicker) -> (open: &mut bool)
        ensures
            *open == old(self)@.state(picker),
            final(self)@ == old(self)@.set(picker, *final(open)),
    {
        match picker {
            ColorPicker::KeyboardBackground => &mut self.keyboard_background,
            ColorPicker::DefaultMouseSpeedIndicator1 => &mut self.default_mouse_speed_indicator_1,
            ColorPicker::DefaultMouseSpeedIndicator2 => &mut self.default_mouse_speed_indicator_2,
            ColorPicker::DefaultLooseBackground => &mut self.default_loose_background,
            ColorPicker::DefaultLooseText => &mut self.default_loose_text,
            ColorPicker::DefaultLooseOutline => &mut self.default_loose_outline,
            ColorPicker::DefaultPressedBackground => &mut self.default_pressed_background,
            ColorPicker::DefaultPressedText => &mut self.default_pressed_text,
            ColorPicker::DefaultPressedOutline => &mut self.default_pressed_outline,
            ColorPicker::LooseBackground(id) => self.loose_background.entry(id).or_insert(false),
            ColorPicker::LooseText(id) => self.loose_text.entry(id).or_insert(false),
            ColorPicker::LooseOutline(id) => self.loose_outline.entry(id).or_insert(false),
            ColorPicker::PressedBackground(id) => self.pressed_background.entry(id).or_insert(
                false,
            ),
            ColorPicker::PressedText(id) => self.pressed_text.entry(id).or_insert(false),
            ColorPicker::PressedOutline(id) => self.pressed_outline.entry(id).or_insert(false),
            ColorPicker::MouseSpeedIndicator1(id) => self.mouse_speed_indicator_1.entry(
                id,
            ).or_insert(false),
            ColorPicker::MouseSpeedIndicator2(id) => self.mouse_speed_indicator_2.entry(
                id,
            ).or_insert(false),
        }
    }

    /// Opens a closed picker or closes an open one.
    pub fn toggle(&mut self, picker: ColorPicker)
        ensures
            final(self)@ == old(self)@.set(picker, !old(self)@.state(picker)),
    {
        let open = self.get_mut(picker);
        *open = !*open;
    }
}

/// Law: toggling a picker flips it and leaves every other picker as it was.
pub proof fn lemma_toggle_flips_only_that_picker(p: PickersView, picker: ColorPicker, other: ColorPicker)
    ensures
        p.set(picker, !p.state(picker)).state(picker) == !p.state(picker),
        other != picker ==> p.set(picker, !p.state(picker)).state(other) == p.state(other),
{
}

/// Law: toggling a picker twice leaves it as it was.
pub proof fn lemma_toggle_twice(p: PickersView, picker: ColorPicker, other: ColorPicker)
    ensures
        ({
            let once = p.set(picker, !p.state(picker));
            once.set(picker, !once.state(picker)).state(other) == p.state(other)
        }),
{
}

} // verus!
