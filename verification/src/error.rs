use vstd::prelude::*;
use crate::mouse::MouseButton;

verus! {

/// Errors shown to the user in an error window. The file and parse errors carry the
/// underlying error's text; an unknown key carries the key's name.
pub enum NuhxBoardError {
    SettingsParse(String),
    LayoutOpen(String),
    LayoutParse(String),
    StyleOpen(String),
    StyleParse(String),
    UnknownKey(String),
    UnknownButton(MouseButton),
}

/// Model of an error: which error, and its text (empty for an unknown button, which carries
/// the button instead).
pub enum ErrorView {
    SettingsParse(Seq<char>),
    LayoutOpen(Seq<char>),
    LayoutParse(Seq<char>),
    StyleOpen(Seq<char>),
    StyleParse(Seq<char>),
    UnknownKey(Seq<char>),
    UnknownButton(MouseButton),
}

impl View for NuhxBoardError {
    type V = ErrorView;

    open spec fn view(&self) -> ErrorView {
        match self {
            NuhxBoardError::SettingsParse(s) => ErrorView::SettingsParse(s@),
            NuhxBoardError::LayoutOpen(s) => ErrorView::LayoutOpen(s@),
            NuhxBoardError::LayoutParse(s) => ErrorView::LayoutParse(s@),
            NuhxBoardError::StyleOpen(s) => ErrorView::StyleOpen(s@),
            NuhxBoardError::StyleParse(s) => ErrorView::StyleParse(s@),
            NuhxBoardError::UnknownKey(s) => ErrorView::UnknownKey(s@),
            NuhxBoardError::UnknownButton(b) => ErrorView::UnknownButton(*b),
        }
    }
}

impl NuhxBoardError {
    /// A copy of the error.
    pub fn duplicate(&self) -> (e: NuhxBoardError)
        ensures
            e@ == self@,
    {
        match self {
            NuhxBoardError::SettingsParse(s) => NuhxBoardError::SettingsParse(s.clone()),
            NuhxBoardError::LayoutOpen(s) => NuhxBoardError::LayoutOpen(s.clone()),
            NuhxBoardError::LayoutParse(s) => NuhxBoardError::LayoutParse(s.clone()),
            NuhxBoardError::StyleOpen(s) => NuhxBoardError::StyleOpen(s.clone()),
            NuhxBoardError::StyleParse(s) => NuhxBoardError::StyleParse(s.clone()),
            NuhxBoardError::UnknownKey(s) => NuhxBoardError::UnknownKey(s.clone()),
            NuhxBoardError::UnknownButton(b) => NuhxBoardError::UnknownButton(*b),
        }
    }

    /// Whether two errors are the same error with the same text.
    pub fn same(&self, other: &NuhxBoardError) -> (r: bool)
        ensures
            r == (self@ == other@),
    {
        match (self, other) {
            (NuhxBoardError::SettingsParse(a), NuhxBoardError::SettingsParse(b)) => *a == *b,
            (NuhxBoardError::LayoutOpen(a), NuhxBoardError::LayoutOpen(b)) => *a == *b,
            (NuhxBoardError::LayoutParse(a), NuhxBoardError::LayoutParse(b)) => *a == *b,
            (NuhxBoardError::StyleOpen(a), NuhxBoardError::StyleOpen(b)) => *a == *b,
            (NuhxBoardError::StyleParse(a), NuhxBoardError::StyleParse(b)) => *a == *b,
            (NuhxBoardError::UnknownKey(a), NuhxBoardError::UnknownKey(b)) => *a == *b,
            (NuhxBoardError::UnknownButton(a), NuhxBoardError::UnknownButton(b)) => *a == *b,
            _ => false,
        }
    }
}

/// The character of a decimal digit.
pub open spec fn digit_char(d: nat) -> char {
    if d == 0 {
        '0'
    } else if d == 1 {
        '1'
    } else if d == 2 {
        '2'
    } else if d == 3 {
        '3'
    } else if d == 4 {
        '4'
    } else if d == 5 {
        '5'
    } else if d == 6 {
        '6'
    } else if d == 7 {
        '7'
    } else if d == 8 {
        '8'
    } else {
        '9'
    }
}

/// The decimal digits of a number, most significant first.
pub open spec fn decimal(n: nat) -> Seq<char>
    decreases n,
{
    if n < 10 {
        seq![digit_char(n)]
    } else {
        decimal(n / 10).push(digit_char(n % 10))
    }
}

/// How a mouse button is written: its variant name, and for an unknown button its number.
pub open spec fn button_text(b: MouseButton) -> Seq<char> {
    match b {
        MouseButton::Left => "Left"@,
        MouseButton::Right => "Right"@,
        MouseButton::Middle => "Middle"@,
        MouseButton::Unknown(n) => "Unknown("@ + decimal(n as nat) + ")"@,
    }
}

/// The text shown for an error.
pub open spec fn error_text(e: ErrorView) -> Seq<char> {
    match e {
        ErrorView::SettingsParse(_) => "Error parsing settings. Using default settings"@,
        ErrorView::LayoutOpen(_) => "Error opening keyboard layout"@,
        ErrorView::LayoutParse(_) => "Error parsing keyboard layout"@,
        ErrorView::StyleOpen(_) => "Error opening keyboard style"@,
        ErrorView::StyleParse(_) => "Error parsing keyboard style"@,
        ErrorView::UnknownKey(name) => "Unknown key: "@ + name,
        ErrorView::UnknownButton(b) => "Unknown button: "@ + button_text(b),
    }
}

/// The further information shown for an error: the underlying error's text, or nothing.
pub open spec fn error_info(e: ErrorView) -> Seq<char> {
    match e {
        ErrorView::SettingsParse(s) => s,
        ErrorView::LayoutOpen(s) => s,
        ErrorView::LayoutParse(s) => s,
        ErrorView::StyleOpen(s) => s,
        ErrorView::StyleParse(s) => s,
        _ => Seq::empty(),
    }
}

fn digit_text(d: u8) -> (s: String)
    requires
        d < 10,
    ensures
        s@ == seq![digit_char(d as nat)],
{
    let lit = if d == 0 {
        "0"
    } else if d == 1 {
        "1"
    } else if d == 2 {
        "2"
    } else if d == 3 {
        "3"
    } else if d == 4 {
        "4"
    } else if d == 5 {
        "5"
    } else if d == 6 {
        "6"
    } else if d == 7 {
        "7"
    } else if d == 8 {
        "8"
    } else {
        "9"
    };
    proof {
        reveal_strlit("0");
        reveal_strlit("1");
        reveal_strlit("2");
        reveal_strlit("3");
        reveal_strlit("4");
        reveal_strlit("5");
        reveal_strlit("6");
        reveal_strlit("7");
        reveal_strlit("8");
        reveal_strlit("9");
    }
    let s = String::from_str(lit);
    assert(s@ =~= seq![digit_char(d as nat)]);
    s
}

/// The decimal digits of a byte (see `decimal`).
pub fn decimal_text(n: u8) -> (s: String)
    ensures
        s@ == decimal(n as nat),
{
    if n < 10 {
        digit_text(n)
    } else if n < 100 {
        let mut s = digit_text(n / 10);
        let last = digit_text(n % 10);
        s.append(last.as_str());
        assert(decimal((n / 10) as nat) == seq![digit_char((n / 10) as nat)]);
        assert(s@ =~= decimal(n as nat));
        s
    } else {
        let mut s = digit_text(n / 100);
        let tens = digit_text((n / 10) % 10);
        let last = digit_text(n % 10);
        s.append(tens.as_str());
        s.append(last.as_str());
        assert(decimal((n / 100) as nat) == seq![digit_char((n / 100) as nat)]);
        assert((n / 10) / 10 == n / 100);
        assert(decimal((n / 10) as nat) =~= seq![
            digit_char((n / 100) as nat),
            digit_char(((n / 10) % 10) as nat),
        ]);
        assert(s@ =~= decimal(n as nat));
        s
    }
}

/// How a mouse button is written (see `button_text`).
pub fn button_text_exec(b: MouseButton) -> (s: String)
    ensures
        s@ == button_text(b),
{
    match b {
        MouseButton::Left => String::from_str("Left"),
        MouseButton::Right => String::from_str("Right"),
        MouseButton::Middle => String::from_str("Middle"),
        MouseButton::Unknown(n) => {
            let mut s = String::from_str("Unknown(");
            let digits = decimal_text(n);
            s.append(digits.as_str());
            s.append(")");
            s
        },
    }
}

impl NuhxBoardError {
    /// The text shown for the error (see `error_text`).
    pub fn text(&self) -> (s: String)
        ensures
            s@ == error_text(self@),
    {
        match self {
            NuhxBoardError::SettingsParse(_) => String::from_str(
                "Error parsing settings. Using default settings",
            ),
            NuhxBoardError::LayoutOpen(_) => String::from_str("Error opening keyboard layout"),
            NuhxBoardError::LayoutParse(_) => String::from_str("Error parsing keyboard layout"),
            NuhxBoardError::StyleOpen(_) => String::from_str("Error opening keyboard style"),
            NuhxBoardError::StyleParse(_) => String::from_str("Error parsing keyboard style"),
            NuhxBoardError::UnknownKey(name) => {
                let mut s = String::from_str("Unknown key: ");
                s.append(name.as_str());
                s
            },
            NuhxBoardError::UnknownButton(b) => {
                let mut s = String::from_str("Unknown button: ");
                let t = button_text_exec(*b);
                s.append(t.as_str());
                s
            },
        }
    }

    /// The further information shown for the error (see `error_info`).
    pub fn info(&self) -> (s: String)
        ensures
            s@ == error_info(self@),
    {
        match self {
            NuhxBoardError::SettingsParse(t) => t.clone(),
            NuhxBoardError::LayoutOpen(t) => t.clone(),
            NuhxBoardError::LayoutParse(t) => t.clone(),
            NuhxBoardError::StyleOpen(t) => t.clone(),
            NuhxBoardError::StyleParse(t) => t.clone(),
            _ => String::new(),
        }
    }
}

} // verus!
