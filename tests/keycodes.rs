use ducky_translate::{get_keycode, lookup};

#[test]
fn named_keys() {
    let table = [
        ("UP", "82"), ("UPARROW", "82"), ("DOWN", "81"), ("DOWNARROW", "81"),
        ("LEFT", "80"), ("LEFTARROW", "80"), ("RIGHT", "79"), ("RIGHTARROW", "79"),
        ("DELETE", "42"), ("END", "42"), ("ESC", "41"), ("ESCAPE", "41"),
        ("HOME", "74"), ("PAGEUP", "75"), ("PAGEDOWN", "78"), ("TAB", "43"),
        ("SPACE", "44"), ("CAPSLOCK", "57"), ("NUMLOCK", "83"), ("SCROLLLOCK", "71"),
        ("PRINTSCREEN", "70"), ("BREAK", "72"), ("PAUSE", "72"), ("APP", "101"),
        ("MENU", "101"), ("ENTER", "KEY_ENTER"),
    ];
    for (name, token) in table {
        assert_eq!(lookup(name), Some(token), "{}", name);
    }
}

#[test]
fn function_keys() {
    for n in 1..=12 {
        let name = format!("F{}", n);
        assert_eq!(lookup(&name), Some(format!("KEY_F{}", n).as_str()));
    }
    assert_eq!(lookup("F13"), None);
    assert_eq!(lookup("F0"), None);
}

#[test]
fn letters_in_either_case() {
    for c in 'a'..='z' {
        let expected = format!("KEY_{}", c.to_ascii_uppercase());
        assert_eq!(lookup(&c.to_string()), Some(expected.as_str()));
        assert_eq!(lookup(&c.to_ascii_uppercase().to_string()), Some(expected.as_str()));
    }
}

#[test]
fn digits() {
    for c in '0'..='9' {
        assert_eq!(lookup(&c.to_string()), Some(format!("KEY_{}", c).as_str()));
    }
}

#[test]
fn punctuation() {
    let table = [
        ("!", "30"),
        ("\"", "49"),
        ("#", "32"),
        ("$", "33"),
        ("%", "34"),
        ("&", "36"),
        ("'", "52"),
        ("(", "38"),
        (")", "39"),
        ("*", "37"),
        ("+", "46"),
        (",", "54"),
        ("-", "45"),
        (".", "55"),
        ("/", "56"),
        (":", "51"),
        (";", "51"),
        ("<", "54"),
        ("=", "46"),
        (">", "55"),
        ("?", "56"),
        ("@", "31"),
        ("[", "47"),
        ("]", "48"),
        ("^", "35"),
        ("_", "45"),
        ("`", "53"),
        ("{", "47"),
        ("}", "48"),
        ("|", "49"),
        ("~", "53"),
    ];
    for (key, token) in table {
        assert_eq!(lookup(key), Some(token), "{}", key);
    }
}

#[test]
fn absent_names() {
    assert_eq!(lookup(""), None);
    assert_eq!(lookup("enter"), None);
    assert_eq!(lookup(" ENTER"), None);
    assert_eq!(lookup("\\"), None);
    assert_eq!(lookup("é"), None);
}

#[test]
fn get_keycode_gives_empty_when_absent() {
    assert_eq!(get_keycode("ENTER"), "KEY_ENTER");
    assert_eq!(get_keycode("a"), "KEY_A");
    assert_eq!(get_keycode("NOPE"), "");
}
