use vstd::prelude::*;

verus! {

/// A mouse button as the input listener reports it.
#[derive(PartialEq, Eq, Structural, Clone, Copy, Debug)]
pub enum MouseButton {
    Left,
    Right,
    Middle,
    Unknown(u8),
}

/// Raised for a mouse button that has no NohBoard code.
#[derive(PartialEq, Eq, Structural, Clone, Copy, Debug)]
pub struct UnknownButton;

/// The NohBoard code of a mouse button, if it has one. The side buttons come under several
/// platform numbers; 6 and 7 are the horizontal scroll wheel.
pub open spec fn spec_mouse_button_code(button: MouseButton) -> Option<u32> {
    match button {
        MouseButton::Left => Some(0),
        MouseButton::Middle => Some(2),
        MouseButton::Right => Some(1),
        MouseButton::Unknown(code) => {
            if code == 1 || code == 8 || code == 19 {
                Some(3)
            } else if code == 2 || code == 9 || code == 20 {
                Some(4)
            } else if code == 6 {
                Some(6)
            } else if code == 7 {
                Some(7)
            } else {
                None
            }
        },
    }
}

/// Converts a mouse button to its NohBoard code; `Err(UnknownButton)` exactly when it has none.
pub fn mouse_button_code_convert(button: MouseButton) -> (r: Result<u32, UnknownButton>)
    ensures
        match spec_mouse_button_code(button) {
            Some(code) => r == Ok::<u32, UnknownButton>(code),
            None => r == Err::<u32, UnknownButton>(UnknownButton),
        },
        button matches MouseButton::Unknown(n) && back_button_numbers().contains(n) ==> r
            == Ok::<u32, UnknownButton>(spec_mouse_key_code(MouseKey::Back)),
        button matches MouseButton::Unknown(n) && forward_button_numbers().contains(n) ==> r
            == Ok::<u32, UnknownButton>(spec_mouse_key_code(MouseKey::Forward)),
{
    proof {
        lemma_buttons_get_their_mouse_key_codes(button);
    }
    match button {
        MouseButton::Left => Ok(0),
        MouseButton::Middle => Ok(2),
        MouseButton::Right => Ok(1),
        MouseButton::Unknown(code) => {
            if code == 1 || code == 8 || code == 19 {
                Ok(3)
            } else if code == 2 || code == 9 || code == 20 {
                Ok(4)
            } else if code == 6 {
                Ok(6)
            } else if code == 7 {
                Ok(7)
            } else {
                Err(UnknownButton)
            }
        },
    }
}

/// The numbers under which platforms report the back side button (XBUTTON1): 1 on Windows, 8
/// on X11, 19 on macOS.
pub open spec fn back_button_numbers() -> Set<u8> {
    set![1u8, 8u8, 19u8]
}

/// The numbers under which platforms report the forward side button (XBUTTON2): 2 on Windows,
/// 9 on X11, 20 on macOS.
pub open spec fn forward_button_numbers() -> Set<u8> {
    set![2u8, 9u8, 20u8]
}

/// Law: the main buttons, and each side button under any of its platform numbers, get the code
/// of the mouse key element that shows them; the two side buttons never share a code.
pub proof fn lemma_buttons_get_their_mouse_key_codes(button: MouseButton)
    ensures
        button == MouseButton::Left ==> spec_mouse_button_code(button) == Some(
            spec_mouse_key_code(MouseKey::Left),
        ),
        button == MouseButton::Right ==> spec_mouse_button_code(button) == Some(
            spec_mouse_key_code(MouseKey::Right),
        ),
        button == MouseButton::Middle ==> spec_mouse_button_code(button) == Some(
            spec_mouse_key_code(MouseKey::Middle),
        ),
        button matches MouseButton::Unknown(n) && back_button_numbers().contains(n)
            ==> spec_mouse_button_code(button) == Some(spec_mouse_key_code(MouseKey::Back)),
        button matches MouseButton::Unknown(n) && forward_button_numbers().contains(n)
            ==> spec_mouse_button_code(button) == Some(spec_mouse_key_code(MouseKey::Forward)),
        spec_mouse_key_code(MouseKey::Back) != spec_mouse_key_code(MouseKey::Forward),
{
}

/// The platform numbers of the horizontal scroll wheel, which is shown as a scroll, not a button.
pub open spec fn spec_is_scroll_wheel_button(button: MouseButton) -> bool {
    button == MouseButton::Unknown(6) || button == MouseButton::Unknown(7)
}

/// Whether a button event really comes from the horizontal scroll wheel.
pub fn is_scroll_wheel_button(button: MouseButton) -> (r: bool)
    ensures
        r == spec_is_scroll_wheel_button(button),
{
    match button {
        MouseButton::Unknown(code) => code == 6 || code == 7,
        _ => false,
    }
}

/// A mouse key element's button.
#[derive(PartialEq, Eq, Structural, Clone, Copy, Debug)]
pub enum MouseKey {
    Left,
    Middle,
    Right,
    Forward,
    Back,
}

pub open spec fn spec_mouse_key_code(key: MouseKey) -> u32 {
    match key {
        MouseKey::Left => 0,
        MouseKey::Middle => 2,
        MouseKey::Right => 1,
        MouseKey::Forward => 4,
        MouseKey::Back => 3,
    }
}

pub open spec fn spec_mouse_key_from_code(code: u32) -> Result<MouseKey, ()> {
    if code == 0 {
        Ok(MouseKey::Left)
    } else if code == 2 {
        Ok(MouseKey::Middle)
    } else if code == 1 {
        Ok(MouseKey::Right)
    } else if code == 4 {
        Ok(MouseKey::Forward)
    } else if code == 3 {
        Ok(MouseKey::Back)
    } else {
        Err(())
    }
}

pub open spec fn spec_mouse_key_name(key: MouseKey) -> Seq<char> {
    match key {
        MouseKey::Left => "Left"@,
        MouseKey::Middle => "Middle"@,
        MouseKey::Right => "Right"@,
        MouseKey::Forward => "Forward"@,
        MouseKey::Back => "Back"@,
    }
}

impl MouseKey {
    /// The name shown for this button.
    pub fn to_string(&self) -> (s: String)
        ensures
            s@ == spec_mouse_key_name(*self),
    {
        match self {
            MouseKey::Left => String::from_str("Left"),
            MouseKey::Middle => String::from_str("Middle"),
            MouseKey::Right => String::from_str("Right"),
            MouseKey::Forward => String::from_str("Forward"),
            MouseKey::Back => String::from_str("Back"),
        }
    }
}

impl From<MouseKey> for u32 {
    fn from(key: MouseKey) -> (code: u32) {
        match key {
            MouseKey::Left => 0,
            MouseKey::Middle => 2,
            MouseKey::Right => 1,
            MouseKey::Forward => 4,
            MouseKey::Back => 3,
        }
    }
}

impl vstd::std_specs::convert::FromSpecImpl<MouseKey> for u32 {
    open spec fn obeys_from_spec() -> bool {
        true
    }

    open spec fn from_spec(key: MouseKey) -> u32 {
        spec_mouse_key_code(key)
    }
}

impl TryFrom<u32> for MouseKey {
    type Error = ();

    fn try_from(value: u32) -> (r: Result<MouseKey, ()>) {
        match value {
            0 => Ok(MouseKey::Left),
            2 => Ok(MouseKey::Middle),
            1 => Ok(MouseKey::Right),
            4 => Ok(MouseKey::Forward),
            3 => Ok(MouseKey::Back),
            _ => Err(()),
        }
    }
}

impl vstd::std_specs::convert::TryFromSpecImpl<u32> for MouseKey {
    open spec fn obeys_try_from_spec() -> bool {
        true
    }

    open spec fn try_from_spec(value: u32) -> Result<MouseKey, ()> {
        spec_mouse_key_from_code(value)
    }
}

/// A mouse scroll element's direction.
#[derive(PartialEq, Eq, Structural, Clone, Copy, Debug)]
pub enum MouseScroll {
    Up,
    Down,
    Left,
    Right,
}

pub open spec fn spec_mouse_scroll_code(scroll: MouseScroll) -> u32 {
    match scroll {
        MouseScroll::Up => 0,
        MouseScroll::Down => 1,
        MouseScroll::Left => 3,
        MouseScroll::Right => 2,
    }
}

pub open spec fn spec_mouse_scroll_from_code(code: u32) -> Result<MouseScroll, ()> {
    if code == 0 {
        Ok(MouseScroll::Up)
    } else if code == 1 {
        Ok(MouseScroll::Down)
    } else if code == 3 {
        Ok(MouseScroll::Left)
    } else if code == 2 {
        Ok(MouseScroll::Right)
    } else {
        Err(())
    }
}

pub open spec fn spec_mouse_scroll_name(scroll: MouseScroll) -> Seq<char> {
    match scroll {
        MouseScroll::Up => "Up"@,
        MouseScroll::Down => "Down"@,
        MouseScroll::Left => "Left"@,
        MouseScroll::Right => "Right"@,
    }
}

impl MouseScroll {
    /// The name shown for this direction.
    pub fn to_string(&self) -> (s: String)
        ensures
            s@ == spec_mouse_scroll_name(*self),
    {
        match self {
            MouseScroll::Up => String::from_str("Up"),
            MouseScroll::Down => String::from_str("Down"),
            MouseScroll::Left => String::from_str("Left"),
            MouseScroll::Right => String::from_str("Right"),
        }
    }
}

impl From<MouseScroll> for u32 {
    fn from(scroll: MouseScroll) -> (code: u32) {
        match scroll {
            MouseScroll::Up => 0,
            MouseScroll::Down => 1,
            MouseScroll::Left => 3,
            MouseScroll::Right => 2,
        }
    }
}

impl vstd::std_specs::convert::FromSpecImpl<MouseScroll> for u32 {
    open spec fn obeys_from_spec() -> bool {
        true
    }

    open spec fn from_spec(scroll: MouseScroll) -> u32 {
        spec_mouse_scroll_code(scroll)
    }
}

impl TryFrom<u32> for MouseScroll {
    type Error = ();

    fn try_from(value: u32) -> (r: Result<MouseScroll, ()>) {
        match value {
            0 => Ok(MouseScroll::Up),
            1 => Ok(MouseScroll::Down),
            3 => Ok(MouseScroll::Left),
            2 => Ok(MouseScroll::Right),
            _ => Err(()),
        }
    }
}

impl vstd::std_specs::convert::TryFromSpecImpl<u32> for MouseScroll {
    open spec fn obeys_try_from_spec() -> bool {
        true
    }

    open spec fn try_from_spec(value: u32) -> Result<MouseScroll, ()> {
        spec_mouse_scroll_from_code(value)
    }
}

/// Law: converting a mouse key to its code and back gives the same key, and a code that
/// converts to a key is that key's code.
pub proof fn lemma_mouse_key_code_round_trip(key: MouseKey, code: u32)
    ensures
        spec_mouse_key_from_code(spec_mouse_key_code(key)) == Ok::<MouseKey, ()>(key),
        spec_mouse_key_from_code(code) is Ok ==> spec_mouse_key_code(
            spec_mouse_key_from_code(code)->Ok_0,
        ) == code,
{
}

/// Law: converting a scroll direction to its code and back gives the same direction, and a
/// code that converts to a direction is that direction's code.
pub proof fn lemma_mouse_scroll_code_round_trip(scroll: MouseScroll, code: u32)
    ensures
        spec_mouse_scroll_from_code(spec_mouse_scroll_code(scroll)) == Ok::<MouseScroll, ()>(
            scroll,
        ),
        spec_mouse_scroll_from_code(code) is Ok ==> spec_mouse_scroll_code(
            spec_mouse_scroll_from_code(code)->Ok_0,
        ) == code,
{
}

} // verus!
