//! The fixed table from key names to the key-code tokens of the firmware.
//!
//! A name of one character (a letter of either case, a digit, a punctuation
//! mark) is looked up by that character; longer names (`ENTER`, `F5`, `HOME`)
//! are compared whole. Letters map to the same token in either case.
use vstd::prelude::*;

use crate::text::{chars_of, same_chars};

verus! {

/// The token of a key named by the single character `c`.
pub open spec fn char_key_code(c: char) -> Option<Seq<char>> {
    match c {
        'a' | 'A' => Some("KEY_A"@),
        'b' | 'B' => Some("KEY_B"@),
        'c' | 'C' => Some("KEY_C"@),
        'd' | 'D' => Some("KEY_D"@),
        'e' | 'E' => Some("KEY_E"@),
        'f' | 'F' => Some("KEY_F"@),
        'g' | 'G' => Some("KEY_G"@),
        'h' | 'H' => Some("KEY_H"@),
        'i' | 'I' => Some("KEY_I"@),
        'j' | 'J' => Some("KEY_J"@),
        'k' | 'K' => Some("KEY_K"@),
        'l' | 'L' => Some("KEY_L"@),
        'm' | 'M' => Some("KEY_M"@),
        'n' | 'N' => Some("KEY_N"@),
        'o' | 'O' => Some("KEY_O"@),
        'p' | 'P' => Some("KEY_P"@),
        'q' | 'Q' => Some("KEY_Q"@),
        'r' | 'R' => Some("KEY_R"@),
        's' | 'S' => Some("KEY_S"@),
        't' | 'T' => Some("KEY_T"@),
        'u' | 'U' => Some("KEY_U"@),
        'v' | 'V' => Some("KEY_V"@),
        'w' | 'W' => Some("KEY_W"@),
        'x' | 'X' => Some("KEY_X"@),
        'y' | 'Y' => Some("KEY_Y"@),
        'z' | 'Z' => Some("KEY_Z"@),
        '1' => Some("KEY_1"@),
        '2' => Some("KEY_2"@),
        '3' => Some("KEY_3"@),
        '4' => Some("KEY_4"@),
        '5' => Some("KEY_5"@),
        '6' => Some("KEY_6"@),
        '7' => Some("KEY_7"@),
        '8' => Some("KEY_8"@),
        '9' => Some("KEY_9"@),
        '0' => Some("KEY_0"@),
        '!' => Some("30"@),
        '"' | '|' => Some("49"@),
        '#' => Some("32"@),
        '$' => Some("33"@),
        '%' => Some("34"@),
        '&' => Some("36"@),
        '\'' => Some("52"@),
        '(' => Some("38"@),
        ')' => Some("39"@),
        '*' => Some("37"@),
        '+' | '=' => Some("46"@),
        ',' | '<' => Some("54"@),
        '-' | '_' => Some("45"@),
        '.' | '>' => Some("55"@),
        '/' | '?' => Some("56"@),
        ':' | ';' => Some("51"@),
        '@' => Some("31"@),
        '[' | '{' => Some("47"@),
        ']' | '}' => Some("48"@),
        '^' => Some("35"@),
        '`' | '~' => Some("53"@),
        _ => None,
    }
}

/// The token of a key whose name is longer than one character.
pub open spec fn named_key_code(name: Seq<char>) -> Option<Seq<char>> {
    if name == "APP"@ || name == "MENU"@ {
        Some("101"@)
    } else if name == "DOWNARROW"@ || name == "DOWN"@ {
        Some("81"@)
    } else if name == "LEFTARROW"@ || name == "LEFT"@ {
        Some("80"@)
    } else if name == "RIGHTARROW"@ || name == "RIGHT"@ {
        Some("79"@)
    } else if name == "UPARROW"@ || name == "UP"@ {
        Some("82"@)
    } else if name == "BREAK"@ || name == "PAUSE"@ {
        Some("72"@)
    } else if name == "CAPSLOCK"@ {
        Some("57"@)
    } else if name == "DELETE"@ || name == "END"@ {
        Some("42"@)
    } else if name == "ESC"@ || name == "ESCAPE"@ {
        Some("41"@)
    } else if name == "HOME"@ {
        Some("74"@)
    } else if name == "NUMLOCK"@ {
        Some("83"@)
    } else if name == "PAGEUP"@ {
        Some("75"@)
    } else if name == "PAGEDOWN"@ {
        Some("78"@)
    } else if name == "PRINTSCREEN"@ {
        Some("70"@)
    } else if name == "SCROLLLOCK"@ {
        Some("71"@)
    } else if name == "SPACE"@ {
        Some("44"@)
    } else if name == "TAB"@ {
        Some("43"@)
    } else if name == "ENTER"@ {
        Some("KEY_ENTER"@)
    } else if name == "F1"@ {
        Some("KEY_F1"@)
    } else if name == "F2"@ {
        Some("KEY_F2"@)
    } else if name == "F3"@ {
        Some("KEY_F3"@)
    } else if name == "F4"@ {
        Some("KEY_F4"@)
    } else if name == "F5"@ {
        Some("KEY_F5"@)
    } else if name == "F6"@ {
        Some("KEY_F6"@)
    } else if name == "F7"@ {
        Some("KEY_F7"@)
    } else if name == "F8"@ {
        Some("KEY_F8"@)
    } else if name == "F9"@ {
        Some("KEY_F9"@)
    } else if name == "F10"@ {
        Some("KEY_F10"@)
    } else if name == "F11"@ {
        Some("KEY_F11"@)
    } else if name == "F12"@ {
        Some("KEY_F12"@)
    } else {
        None
    }
}

/// The token that the table gives `name`, or `None` where it has no entry.
pub open spec fn key_code(name: Seq<char>) -> Option<Seq<char>> {
    if name.len() == 1 {
        char_key_code(name[0])
    } else {
        named_key_code(name)
    }
}

/// The token for `name`, or the empty text where the table has no entry.
pub open spec fn key_code_or_empty(name: Seq<char>) -> Seq<char> {
    match key_code(name) {
        Some(t) => t,
        None => Seq::empty(),
    }
}

/// The characters of a token, if there is one.
pub open spec fn token_view(t: Option<&str>) -> Option<Seq<char>> {
    match t {
        Some(s) => Some(s@),
        None => None,
    }
}

/// Whether `v` spells the word `w`.
fn is_word(v: &Vec<char>, w: &str) -> (r: bool)
    ensures
        r == (v@ == w@),
{
    let wv = chars_of(w);
    same_chars(v, &wv)
}

/// The token of a key named by the single character `c`.
pub fn char_token(c: char) -> (r: Option<&'static str>)
    ensures
        token_view(r) == char_key_code(c),
{
    match c {
        'a' | 'A' => Some("KEY_A"),
        'b' | 'B' => Some("KEY_B"),
        'c' | 'C' => Some("KEY_C"),
        'd' | 'D' => Some("KEY_D"),
        'e' | 'E' => Some("KEY_E"),
        'f' | 'F' => Some("KEY_F"),
        'g' | 'G' => Some("KEY_G"),
        'h' | 'H' => Some("KEY_H"),
        'i' | 'I' => Some("KEY_I"),
        'j' | 'J' => Some("KEY_J"),
        'k' | 'K' => Some("KEY_K"),
        'l' | 'L' => Some("KEY_L"),
        'm' | 'M' => Some("KEY_M"),
        'n' | 'N' => Some("KEY_N"),
        'o' | 'O' => Some("KEY_O"),
        'p' | 'P' => Some("KEY_P"),
        'q' | 'Q' => Some("KEY_Q"),
        'r' | 'R' => Some("KEY_R"),
        's' | 'S' => Some("KEY_S"),
        't' | 'T' => Some("KEY_T"),
        'u' | 'U' => Some("KEY_U"),
        'v' | 'V' => Some("KEY_V"),
        'w' | 'W' => Some("KEY_W"),
        'x' | 'X' => Some("KEY_X"),
        'y' | 'Y' => Some("KEY_Y"),
        'z' | 'Z' => Some("KEY_Z"),
        '1' => Some("KEY_1"),
        '2' => Some("KEY_2"),
        '3' => Some("KEY_3"),
        '4' => Some("KEY_4"),
        '5' => Some("KEY_5"),
        '6' => Some("KEY_6"),
        '7' => Some("KEY_7"),
        '8' => Some("KEY_8"),
        '9' => Some("KEY_9"),
        '0' => Some("KEY_0"),
        '!' => Some("30"),
        '"' | '|' => Some("49"),
        '#' => Some("32"),
        '$' => Some("33"),
        '%' => Some("34"),
        '&' => Some("36"),
        '\'' => Some("52"),
        '(' => Some("38"),
        ')' => Some("39"),
        '*' => Some("37"),
        '+' | '=' => Some("46"),
        ',' | '<' => Some("54"),
        '-' | '_' => Some("45"),
        '.' | '>' => Some("55"),
        '/' | '?' => Some("56"),
        ':' | ';' => Some("51"),
        '@' => Some("31"),
        '[' | '{' => Some("47"),
        ']' | '}' => Some("48"),
        '^' => Some("35"),
        '`' | '~' => Some("53"),
        _ => None,
    }
}

/// The token of a key whose name, longer than one character, is `name`.
pub fn named_token(name: &Vec<char>) -> (r: Option<&'static str>)
    ensures
        token_view(r) == named_key_code(name@),
{
    if is_word(name, "APP") || is_word(name, "MENU") {
        Some("101")
    } else if is_word(name, "DOWNARROW") || is_word(name, "DOWN") {
        Some("81")
    } else if is_word(name, "LEFTARROW") || is_word(name, "LEFT") {
        Some("80")
    } else if is_word(name, "RIGHTARROW") || is_word(name, "RIGHT") {
        Some("79")
    } else if is_word(name, "UPARROW") || is_word(name, "UP") {
        Some("82")
    } else if is_word(name, "BREAK") || is_word(name, "PAUSE") {
        Some("72")
    } else if is_word(name, "CAPSLOCK") {
        Some("57")
    } else if is_word(name, "DELETE") || is_word(name, "END") {
        Some("42")
    } else if is_word(name, "ESC") || is_word(name, "ESCAPE") {
        Some("41")
    } else if is_word(name, "HOME") {
        Some("74")
    } else if is_word(name, "NUMLOCK") {
        Some("83")
    } else if is_word(name, "PAGEUP") {
        Some("75")
    } else if is_word(name, "PAGEDOWN") {
        Some("78")
    } else if is_word(name, "PRINTSCREEN") {
        Some("70")
    } else if is_word(name, "SCROLLLOCK") {
        Some("71")
    } else if is_word(name, "SPACE") {
        Some("44")
    } else if is_word(name, "TAB") {
        Some("43")
    } else if is_word(name, "ENTER") {
        Some("KEY_ENTER")
    } else if is_word(name, "F1") {
        Some("KEY_F1")
    } else if is_word(name, "F2") {
        Some("KEY_F2")
    } else if is_word(name, "F3") {
        Some("KEY_F3")
    } else if is_word(name, "F4") {
        Some("KEY_F4")
    } else if is_word(name, "F5") {
        Some("KEY_F5")
    } else if is_word(name, "F6") {
        Some("KEY_F6")
    } else if is_word(name, "F7") {
        Some("KEY_F7")
    } else if is_word(name, "F8") {
        Some("KEY_F8")
    } else if is_word(name, "F9") {
        Some("KEY_F9")
    } else if is_word(name, "F10") {
        Some("KEY_F10")
    } else if is_word(name, "F11") {
        Some("KEY_F11")
    } else if is_word(name, "F12") {
        Some("KEY_F12")
    } else {
        None
    }
}

/// Looks up the key named by the characters `name`.
pub fn lookup_chars(name: &Vec<char>) -> (r: Option<&'static str>)
    ensures
        token_view(r) == key_code(name@),
{
    if name.len() == 1 {
        char_token(name[0])
    } else {
        named_token(name)
    }
}

/// Looks up the key named `name`; `None` where the table has no entry.
pub fn lookup(name: &str) -> (r: Option<&'static str>)
    ensures
        token_view(r) == key_code(name@),
{
    let v = chars_of(name);
    lookup_chars(&v)
}

/// The token for `input`, or the empty string where the table has no entry.
pub fn get_keycode(input: &str) -> (r: &'static str)
    ensures
        r@ == key_code_or_empty(input@),
{
    match lookup(input) {
        Some(t) => t,
        None => {
            proof {
                reveal_strlit("");
            }
            ""
        },
    }
}

} // verus!
