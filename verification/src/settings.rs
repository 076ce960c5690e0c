use vstd::prelude::*;

verus! {

/// How key texts follow caps lock.
#[derive(PartialEq, Eq, Structural, Clone, Copy, Debug)]
pub enum Capitalization {
    /// Show all texts in lowercase.
    Lower,
    /// Show all texts capitalized.
    Upper,
    /// Follow caps lock and shift.
    Follow,
}

/// The display the mouse speed is measured from.
#[derive(PartialEq, Eq, Structural, Clone, Copy, Debug)]
pub struct DisplayChoice {
    pub id: u32,
    pub primary: bool,
}

/// The application's settings, kept between launches. `F` is the scalar type of the mouse
/// sensitivity (a float in the application).
pub struct Settings<F> {
    pub capitalization: Capitalization,
    pub follow_for_caps_sensitive: bool,
    pub follow_for_caps_insensitive: bool,
    pub category: String,
    pub layout_index: usize,
    pub style: usize,
    pub mouse_from_center: bool,
    pub mouse_sensitivity: F,
    /// Minimum time a key is shown pressed, in milliseconds.
    pub min_press_time: u64,
    /// How long a scroll is shown, in milliseconds.
    pub scroll_hold_time: u64,
    pub window_title: String,
    pub display_choice: DisplayChoice,
    pub update_text_position: bool,
}

/// Model of the settings.
pub struct SettingsView<F> {
    pub capitalization: Capitalization,
    pub follow_for_caps_sensitive: bool,
    pub follow_for_caps_insensitive: bool,
    pub category: Seq<char>,
    pub layout_index: usize,
    pub style: usize,
    pub mouse_from_center: bool,
    pub mouse_sensitivity: F,
    pub min_press_time: u64,
    pub scroll_hold_time: u64,
    pub window_title: Seq<char>,
    pub display_choice: DisplayChoice,
    pub update_text_position: bool,
}

impl<F> View for Settings<F> {
    type V = SettingsView<F>;

    open spec fn view(&self) -> SettingsView<F> {
        SettingsView {
            capitalization: self.capitalization,
            follow_for_caps_sensitive: self.follow_for_caps_sensitive,
            follow_for_caps_insensitive: self.follow_for_caps_insensitive,
            category: self.category@,
            layout_index: self.layout_index,
            style: self.style,
            mouse_from_center: self.mouse_from_center,
            mouse_sensitivity: self.mouse_sensitivity,
            min_press_time: self.min_press_time,
            scroll_hold_time: self.scroll_hold_time,
            window_title: self.window_title@,
            display_choice: self.display_choice,
            update_text_position: self.update_text_position,
        }
    }
}

/// A change made in the settings window.
pub enum Setting<F> {
    MouseSensitivity(F),
    ScrollHoldTime(u64),
    CenterMouse,
    DisplayChoice(DisplayChoice),
    MinPressTime(u64),
    WindowTitle(String),
    Capitalization(Capitalization),
    FollowForCapsSensitive,
    FollowForCapsInsensitive,
    UpdateTextPosition,
}

/// The settings after a change; the toggles flip.
pub open spec fn spec_apply_setting<F>(s: SettingsView<F>, setting: Setting<F>) -> SettingsView<F> {
    match setting {
        Setting::MouseSensitivity(v) => SettingsView { mouse_sensitivity: v, ..s },
        Setting::ScrollHoldTime(v) => SettingsView { scroll_hold_time: v, ..s },
        Setting::CenterMouse => SettingsView { mouse_from_center: !s.mouse_from_center, ..s },
        Setting::DisplayChoice(v) => SettingsView { display_choice: v, ..s },
        Setting::MinPressTime(v) => SettingsView { min_press_time: v, ..s },
        Setting::WindowTitle(v) => SettingsView { window_title: v@, ..s },
        Setting::Capitalization(v) => SettingsView { capitalization: v, ..s },
        Setting::FollowForCapsSensitive => SettingsView {
            follow_for_caps_sensitive: !s.follow_for_caps_sensitive,
            ..s
        },
        Setting::FollowForCapsInsensitive => SettingsView {
            follow_for_caps_insensitive: !s.follow_for_caps_insensitive,
            ..s
        },
        Setting::UpdateTextPosition => SettingsView {
            update_text_position: !s.update_text_position,
            ..s
        },
    }
}

/// Law: each setting changes its own field and no other: a value setting puts its value in its
/// field, a toggle flips its field, and every field keeps its value under every other setting
/// (the category, layout and style are never changed here).
pub proof fn lemma_each_setting_changes_only_its_own_field<F>(s: SettingsView<F>, setting: Setting<F>)
    ensures
        ({
            let n = spec_apply_setting(s, setting);
            &&& n.min_press_time == match setting {
                Setting::MinPressTime(v) => v,
                _ => s.min_press_time,
            }
            &&& n.scroll_hold_time == match setting {
                Setting::ScrollHoldTime(v) => v,
                _ => s.scroll_hold_time,
            }
            &&& n.mouse_sensitivity == match setting {
                Setting::MouseSensitivity(v) => v,
                _ => s.mouse_sensitivity,
            }
            &&& n.display_choice == match setting {
                Setting::DisplayChoice(v) => v,
                _ => s.display_choice,
            }
            &&& n.window_title == match setting {
                Setting::WindowTitle(v) => v@,
                _ => s.window_title,
            }
            &&& n.capitalization == match setting {
                Setting::Capitalization(v) => v,
                _ => s.capitalization,
            }
            &&& n.mouse_from_center == (s.mouse_from_center != (setting is CenterMouse))
            &&& n.follow_for_caps_sensitive == (s.follow_for_caps_sensitive != (
            setting is FollowForCapsSensitive))
            &&& n.follow_for_caps_insensitive == (s.follow_for_caps_insensitive != (
            setting is FollowForCapsInsensitive))
            &&& n.update_text_position == (s.update_text_position != (
            setting is UpdateTextPosition))
            &&& n.category == s.category
            &&& n.layout_index == s.layout_index
            &&& n.style == s.style
        }),
{
}

impl<F: Copy> Settings<F> {
    /// Applies a change made in the settings window.
    pub fn apply(&mut self, setting: Setting<F>)
        ensures
            final(self)@ == spec_apply_setting(old(self)@, setting),
    {
        match setting {
            Setting::MouseSensitivity(v) => self.mouse_sensitivity = v,
            Setting::ScrollHoldTime(v) => self.scroll_hold_time = v,
            Setting::CenterMouse => self.mouse_from_center = !self.mouse_from_center,
            Setting::DisplayChoice(v) => self.display_choice = v,
            Setting::MinPressTime(v) => self.min_press_time = v,
            Setting::WindowTitle(v) => self.window_title = v,
            Setting::Capitalization(v) => self.capitalization = v,
            Setting::FollowForCapsSensitive => self.follow_for_caps_sensitive =
                !self.follow_for_caps_sensitive,
            Setting::FollowForCapsInsensitive => self.follow_for_caps_insensitive =
                !self.follow_for_caps_insensitive,
            Setting::UpdateTextPosition => self.update_text_position = !self.update_text_position,
        }
    }
}

/// Whether a key shows its shift text: a key that follows caps lock shows it when exactly one
/// of caps and an effective shift is on; another key when shift is effective. Shift counts
/// when capitalization follows the keyboard, or when the setting for that kind of key says so.
pub open spec fn spec_shows_shift_text(
    change_on_caps: bool,
    caps: bool,
    shift_pressed: bool,
    capitalization: Capitalization,
    follow_for_caps_sensitive: bool,
    follow_for_caps_insensitive: bool,
) -> bool {
    if change_on_caps {
        caps != (shift_pressed && (capitalization == Capitalization::Follow
            || follow_for_caps_sensitive))
    } else {
        shift_pressed && (capitalization == Capitalization::Follow || follow_for_caps_insensitive)
    }
}

/// Whether a key shows its shift text (see `spec_shows_shift_text`).
pub fn shows_shift_text(
    change_on_caps: bool,
    caps: bool,
    shift_pressed: bool,
    capitalization: Capitalization,
    follow_for_caps_sensitive: bool,
    follow_for_caps_insensitive: bool,
) -> (r: bool)
    ensures
        r == spec_shows_shift_text(
            change_on_caps,
            caps,
            shift_pressed,
            capitalization,
            follow_for_caps_sensitive,
            follow_for_caps_insensitive,
        ),
{
    let follow = match capitalization {
        Capitalization::Follow => true,
        _ => false,
    };
    if change_on_caps {
        caps ^ (shift_pressed && (follow || follow_for_caps_sensitive))
    } else {
        shift_pressed && (follow || follow_for_caps_insensitive)
    }
}

/// Law: with capitalization following the keyboard, a caps-lock key shows its shift text
/// exactly when one of caps lock and shift is on, and another key exactly when shift is held.
pub proof fn lemma_follow_capitalization(
    change_on_caps: bool,
    caps: bool,
    shift_pressed: bool,
    sensitive: bool,
    insensitive: bool,
)
    ensures
        spec_shows_shift_text(
            change_on_caps,
            caps,
            shift_pressed,
            Capitalization::Follow,
            sensitive,
            insensitive,
        ) == if change_on_caps {
            caps != shift_pressed
        } else {
            shift_pressed
        },
{
}

/// Law: with no shift held, a key shows its shift text exactly when it follows caps lock and
/// caps is on.
pub proof fn lemma_no_shift(
    change_on_caps: bool,
    caps: bool,
    capitalization: Capitalization,
    sensitive: bool,
    insensitive: bool,
)
    ensures
        spec_shows_shift_text(change_on_caps, caps, false, capitalization, sensitive, insensitive)
            == (change_on_caps && caps),
{
}

/// A display of the machine, as the display list reports it.
#[derive(PartialEq, Eq, Structural, Clone, Copy, Debug)]
pub struct Display {
    pub id: u32,
    pub is_primary: bool,
}

/// The id of the last primary display of a list; 0 when none is primary.
pub open spec fn primary_display_id(displays: Seq<Display>) -> u32
    decreases displays.len(),
{
    if displays.len() == 0 {
        0
    } else if displays.last().is_primary {
        displays.last().id
    } else {
        primary_display_id(displays.drop_last())
    }
}

/// The settings of a first launch: capitalization follows the keyboard, no category is
/// chosen, no minimum press time, scrolls shown for 100 ms, the window titled `NuhxBoard`,
/// and the mouse measured on the primary display.
pub open spec fn default_settings<F>(mouse_sensitivity: F, displays: Seq<Display>) -> SettingsView<F> {
    SettingsView {
        capitalization: Capitalization::Follow,
        follow_for_caps_sensitive: false,
        follow_for_caps_insensitive: false,
        category: Seq::empty(),
        layout_index: 0,
        style: 0,
        mouse_from_center: false,
        mouse_sensitivity,
        min_press_time: 0,
        scroll_hold_time: 100,
        window_title: "NuhxBoard"@,
        display_choice: DisplayChoice { id: primary_display_id(displays), primary: true },
        update_text_position: false,
    }
}

impl<F: Copy> Settings<F> {
    /// The settings of a first launch (see `default_settings`), with the given mouse
    /// sensitivity and the machine's displays.
    pub fn defaults(mouse_sensitivity: F, displays: &Vec<Display>) -> (s: Settings<F>)
        ensures
            s@ == default_settings(mouse_sensitivity, displays@),
    {
        let mut id: u32 = 0;
        let mut i: usize = 0;
        proof {
            assert(displays@.subrange(0, 0) =~= Seq::<Display>::empty());
        }
        while i < displays.len()
            invariant
                0 <= i <= displays.len(),
                id == primary_display_id(displays@.subrange(0, i as int)),
            decreases displays.len() - i,
        {
            let d = displays[i];
            proof {
                let prefix = displays@.subrange(0, i + 1);
                assert(prefix.drop_last() =~= displays@.subrange(0, i as int));
                assert(prefix.last() == d);
                if !d.is_primary {
                    assert(primary_display_id(prefix) == primary_display_id(prefix.drop_last()));
                }
            }
            if d.is_primary {
                id = d.id;
            }
            i = i + 1;
        }
        proof {
            assert(displays@.subrange(0, displays.len() as int) =~= displays@);
        }
        Settings {
            capitalization: Capitalization::Follow,
            follow_for_caps_sensitive: false,
            follow_for_caps_insensitive: false,
            category: String::new(),
            layout_index: 0,
            style: 0,
            mouse_from_center: false,
            mouse_sensitivity,
            min_press_time: 0,
            scroll_hold_time: 100,
            window_title: String::from_str("NuhxBoard"),
            display_choice: DisplayChoice { id, primary: true },
            update_text_position: false,
        }
    }
}

} // verus!
