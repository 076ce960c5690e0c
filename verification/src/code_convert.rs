use vstd::prelude::*;

verus! {

/// The X input codes that `code_convert` knows: the mouse buttons and the main block of the
/// keyboard.
pub open spec fn xinput_code_is_known(xinput_code: u32) -> bool {
    ||| xinput_code == 1
    ||| xinput_code == 3
    ||| xinput_code == 4
    ||| xinput_code == 5
    ||| 10 <= xinput_code <= 66
}

/// The NohBoard (Windows virtual key) code of a known X input code.
pub open spec fn spec_code_convert(xinput_code: u32) -> u32 {
    if xinput_code == 1 { 0 }  // left mouse button
    else if xinput_code == 3 { 1 }  // right mouse button
    else if xinput_code == 4 { 22 }  // scroll down
    else if xinput_code == 5 { 21 }  // scroll up
    else if 10 <= xinput_code <= 18 { (xinput_code + 39) as u32 }  // 1-9
    else if 22 <= xinput_code <= 23 { (xinput_code - 14) as u32 }  // backspace, tab
    else if xinput_code == 19 { 48 }  // 0
    else if xinput_code == 20 { 189 }  // -
    else if xinput_code == 21 { 187 }  // =
    else if xinput_code == 24 { 81 }  // q
    else if xinput_code == 25 { 87 }  // w
    else if xinput_code == 26 { 69 }  // e
    else if xinput_code == 27 { 82 }  // r
    else if xinput_code == 28 { 84 }  // t
    else if xinput_code == 29 { 89 }  // y
    else if xinput_code == 30 { 85 }  // u
    else if xinput_code == 31 { 73 }  // i
    else if xinput_code == 32 { 79 }  // o
    else if xinput_code == 33 { 80 }  // p
    else if xinput_code == 34 { 219 }  // [
    else if xinput_code == 35 { 221 }  // ]
    else if xinput_code == 36 { 13 }  // enter
    else if xinput_code == 37 { 162 }  // ctrl
    else if xinput_code == 38 { 65 }  // a
    else if xinput_code == 39 { 83 }  // s
    else if xinput_code == 40 { 68 }  // d
    else if xinput_code == 41 { 70 }  // f
    else if xinput_code == 42 { 71 }  // g
    else if xinput_code == 43 { 72 }  // h
    else if xinput_code == 44 { 74 }  // j
    else if xinput_code == 45 { 75 }  // k
    else if xinput_code == 46 { 76 }  // l
    else if xinput_code == 47 { 186 }  // ;
    else if xinput_code == 48 { 222 }  // '
    else if xinput_code == 49 { 192 }  // `
    else if xinput_code == 50 { 160 }  // left shift
    else if xinput_code == 51 { 220 }  // backslash
    else if xinput_code == 52 { 90 }  // z
    else if xinput_code == 53 { 88 }  // x
    else if xinput_code == 54 { 67 }  // c
    else if xinput_code == 55 { 86 }  // v
    else if xinput_code == 56 { 66 }  // b
    else if xinput_code == 57 { 78 }  // n
    else if xinput_code == 58 { 77 }  // m
    else if xinput_code == 59 { 188 }  // ,
    else if xinput_code == 60 { 190 }  // .
    else if xinput_code == 61 { 191 }  // /
    else if xinput_code == 62 { 161 }  // right shift
    else if xinput_code == 63 { 106 }  // *
    else if xinput_code == 64 { 18 }  // alt
    else if xinput_code == 65 { 32 }  // space
    else { 20 }  // caps lock (66)
}

/// The character on a letter key of a US keyboard, by X input code: the three letter rows
/// start at codes 24, 38 and 52, each key one code after the key on its left.
pub open spec fn letter_key(xinput_code: u32) -> Option<char> {
    let top = seq!['Q', 'W', 'E', 'R', 'T', 'Y', 'U', 'I', 'O', 'P'];
    let home = seq!['A', 'S', 'D', 'F', 'G', 'H', 'J', 'K', 'L'];
    let bottom = seq!['Z', 'X', 'C', 'V', 'B', 'N', 'M'];
    if 24 <= xinput_code < 34 {
        Some(top[xinput_code - 24])
    } else if 38 <= xinput_code < 47 {
        Some(home[xinput_code - 38])
    } else if 52 <= xinput_code < 59 {
        Some(bottom[xinput_code - 52])
    } else {
        None
    }
}

/// The character on a key of the digit row, by X input code: codes 10 to 19 hold the digits 1
/// to 9, then 0.
pub open spec fn digit_key(xinput_code: u32) -> Option<char> {
    let row = seq!['1', '2', '3', '4', '5', '6', '7', '8', '9', '0'];
    if 10 <= xinput_code < 20 {
        Some(row[xinput_code - 10])
    } else {
        None
    }
}

/// Law: a letter or digit key converts to the Windows virtual-key code of the character on
/// it, which is that character's (upper-case) ASCII code; so no two of these keys share a
/// code.
pub proof fn lemma_letters_and_digits_keep_their_characters(xinput_code: u32)
    ensures
        letter_key(xinput_code) matches Some(c) ==> spec_code_convert(xinput_code) == c as u32,
        digit_key(xinput_code) matches Some(c) ==> spec_code_convert(xinput_code) == c as u32,
{
}

/// Converts an X input code to the code NohBoard layouts use for the same key or button.
/// Codes outside the known set are refused (the conversion has no answer for them).
pub fn code_convert(xinput_code: u32) -> (code: u32)
    requires
        xinput_code_is_known(xinput_code),
    ensures
        code == spec_code_convert(xinput_code),
        letter_key(xinput_code) matches Some(c) ==> code == c as u32,
        digit_key(xinput_code) matches Some(c) ==> code == c as u32,
{
    proof {
        lemma_letters_and_digits_keep_their_characters(xinput_code);
    }
    // mouse buttons
    match xinput_code {
        1 => return 0,
        3 => return 1,
        4 => return 22,
        5 => return 21,
        _ => {},
    }
    // 1-9
    if 10 <= xinput_code && xinput_code <= 18 {
        return xinput_code + 39;
    }
    // backspace + tab
    if 22 <= xinput_code && xinput_code <= 23 {
        return xinput_code - 14;
    }
    match xinput_code {
        19 => 48,
        20 => 189,
        21 => 187,
        24 => 81,
        25 => 87,
        26 => 69,
        27 => 82,
        28 => 84,
        29 => 89,
        30 => 85,
        31 => 73,
        32 => 79,
        33 => 80,
        34 => 219,
        35 => 221,
        36 => 13,
        37 => 162,
        38 => 65,
        39 => 83,
        40 => 68,
        41 => 70,
        42 => 71,
        43 => 72,
        44 => 74,
        45 => 75,
        46 => 76,
        47 => 186,
        48 => 222,
        49 => 192,
        50 => 160,
        51 => 220,
        52 => 90,
        53 => 88,
        54 => 67,
        55 => 86,
        56 => 66,
        57 => 78,
        58 => 77,
        59 => 188,
        60 => 190,
        61 => 191,
        62 => 161,
        63 => 106,
        64 => 18,
        65 => 32,
        _ => 20,
    }
}

} // verus!
