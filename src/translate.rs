//! Translation of one script line into one statement of the firmware program.
//!
//! Lines are classified in a fixed order, the first match deciding: a comment
//! (`REM `), a printed string (`STRING `), a delay (`DELAY ` and digits), a GUI
//! combination (`GUI ` or `WINDOWS ` and one lowercase letter), a modifier
//! combination (`CONTROL `, `CTRL `, `SHIFT ` or `ALT ` and a key name), a
//! named key, a blank line, and otherwise an unrecognised line.
use vstd::prelude::*;

use crate::keycodes::{key_code, key_code_or_empty, lookup_chars};
use crate::text::{
    append_chars, chars_of, contains, has_prefix, occurs_in, push_char, remove_all, removed,
    slice_of, starts_with, trim, trimmed,
};

verus! {

/// How one character is written inside a double-quoted string of the program.
pub open spec fn escape_char(c: char) -> Seq<char> {
    if c == '\\' {
        seq!['\\', '\\']
    } else if c == '"' {
        seq!['\\', '"']
    } else if c == '\n' {
        seq!['\\', 'n']
    } else if c == '\r' {
        seq!['\\', 'r']
    } else if c == '\t' {
        seq!['\\', 't']
    } else if c == '\u{8}' {
        seq!['\\', 'b']
    } else {
        seq![c]
    }
}

/// The characters that a string literal of the program cannot hold as they are.
pub open spec fn is_special(c: char) -> bool {
    c == '\\' || c == '"' || c == '\n' || c == '\r' || c == '\t' || c == '\u{8}'
}

/// `s` with each character escaped.
pub open spec fn escaped(s: Seq<char>) -> Seq<char>
    decreases s.len(),
{
    if s.len() == 0 {
        Seq::empty()
    } else {
        escaped(s.drop_last()) + escape_char(s.last())
    }
}

/// Appends the escaped form of `v` to `out`.
pub fn escape_into(out: &mut String, v: &Vec<char>)
    ensures
        final(out)@ == old(out)@ + escaped(v@),
{
    let ghost start = out@;
    for i in 0..v.len()
        invariant
            out@ == start + escaped(v@.take(i as int)),
    {
        let c = v[i];
        assert(v@.take(i + 1).drop_last() == v@.take(i as int));
        if c == '\\' {
            push_char(out, '\\');
            push_char(out, '\\');
        } else if c == '"' {
            push_char(out, '\\');
            push_char(out, '"');
        } else if c == '\n' {
            push_char(out, '\\');
            push_char(out, 'n');
        } else if c == '\r' {
            push_char(out, '\\');
            push_char(out, 'r');
        } else if c == '\t' {
            push_char(out, '\\');
            push_char(out, 't');
        } else if c == '\u{8}' {
            push_char(out, '\\');
            push_char(out, 'b');
        } else {
            push_char(out, c);
        }
        assert(out@ == start + escaped(v@.take(i + 1)));
    }
    assert(v@.take(v@.len() as int) == v@);
}

/// `input` with backslash, double quote, newline, carriage return, tab and
/// backspace written as escape sequences; every other character is kept.
pub fn escape_string_chars(input: &str) -> (r: String)
    ensures
        r@ == escaped(input@),
{
    let v = chars_of(input);
    let mut r = String::new();
    escape_into(&mut r, &v);
    r
}

/// A decimal digit `0` to `9`.
pub open spec fn is_digit(c: char) -> bool {
    '0' <= c && c <= '9'
}

/// A lowercase letter `a` to `z`.
pub open spec fn is_lower(c: char) -> bool {
    'a' <= c && c <= 'z'
}

/// `s` is one or more decimal digits.
pub open spec fn is_digits(s: Seq<char>) -> bool {
    s.len() > 0 && forall|i: int| 0 <= i < s.len() ==> is_digit(#[trigger] s[i])
}

/// `line` is `DELAY ` followed by one or more digits and nothing else.
pub open spec fn is_delay_line(line: Seq<char>) -> bool {
    has_prefix(line, "DELAY "@) && is_digits(line.skip("DELAY "@.len() as int))
}

/// `line` is the word `p` followed by exactly one lowercase letter.
pub open spec fn is_letter_after(line: Seq<char>, p: Seq<char>) -> bool {
    line.len() == p.len() + 1 && has_prefix(line, p) && is_lower(line.last())
}

/// `line` is `GUI ` or `WINDOWS ` followed by exactly one lowercase letter.
pub open spec fn is_gui_line(line: Seq<char>) -> bool {
    is_letter_after(line, "GUI "@) || is_letter_after(line, "WINDOWS "@)
}

/// `line` begins with one of the modifier words and a space.
pub open spec fn is_combo_line(line: Seq<char>) -> bool {
    has_prefix(line, "CONTROL "@) || has_prefix(line, "CTRL "@) || has_prefix(line, "SHIFT "@)
        || has_prefix(line, "ALT "@)
}

/// The control modifier is named anywhere in `line`.
pub open spec fn names_control(line: Seq<char>) -> bool {
    occurs_in(line, "CONTROL"@) || occurs_in(line, "CTRL"@)
}

/// The modifier constant of a combination line: control where the line names
/// it anywhere, else shift where it names that, else alt.
pub open spec fn combo_modifier(line: Seq<char>) -> Seq<char> {
    if names_control(line) {
        "MOD_CONTROL_LEFT"@
    } else if occurs_in(line, "SHIFT"@) {
        "MOD_SHIFT_LEFT"@
    } else {
        "MOD_ALT_LEFT"@
    }
}

/// The key name of a combination line: the line with every occurrence of the
/// chosen modifier's word and its space removed, then trimmed.
pub open spec fn combo_key(line: Seq<char>) -> Seq<char> {
    trimmed(
        if names_control(line) {
            removed(removed(line, "CONTROL "@), "CTRL "@)
        } else if occurs_in(line, "SHIFT"@) {
            removed(line, "SHIFT "@)
        } else {
            removed(line, "ALT "@)
        },
    )
}

/// The statement that one script line becomes.
///
/// Comments, unrecognised lines and blank lines stand unindented; every other
/// statement is indented by one tab. A combination whose key name has no entry
/// in the table keeps its modifier and gets an empty key argument. A line that
/// is none of the instructions is looked up as a key name after trimming.
pub open spec fn translation(line: Seq<char>) -> Seq<char> {
    if has_prefix(line, "REM "@) {
        "// "@ + line.skip("REM "@.len() as int)
    } else if has_prefix(line, "STRING "@) {
        "\tDigiKeyboard.print(\""@ + escaped(line.skip("STRING "@.len() as int)) + "\");"@
    } else if is_delay_line(line) {
        "\tDigiKeyboard.delay("@ + line.skip("DELAY "@.len() as int) + ");"@
    } else if is_gui_line(line) {
        "\tDigiKeyboard.sendKeyStroke(0, MOD_GUI_LEFT, "@ + seq![line.last()] + ");"@
    } else if is_combo_line(line) {
        "\tDigiKeyboard.sendKeyStroke(0, "@ + combo_modifier(line) + ", "@ + key_code_or_empty(
            combo_key(line),
        ) + ");"@
    } else {
        match key_code(trimmed(line)) {
            Some(t) => "\tDigiKeyboard.sendKeyStroke("@ + t + ");"@,
            None => if line.len() == 0 {
                Seq::empty()
            } else {
                "// Unimplemented: "@ + line
            },
        }
    }
}

/// Whether every character of `v` from position `from` on is a digit, and
/// there is at least one.
fn digits_from(v: &Vec<char>, from: usize) -> (r: bool)
    requires
        from <= v.len(),
    ensures
        r == is_digits(v@.skip(from as int)),
{
    if from == v.len() {
        return false;
    }
    let mut i: usize = from;
    while i < v.len()
        invariant
            from <= i <= v.len(),
            forall|j: int| from <= j < i ==> is_digit(v@[j]),
        decreases v.len() - i,
    {
        if !('0' <= v[i] && v[i] <= '9') {
            assert(v@.skip(from as int)[i - from] == v@[i as int]);
            return false;
        }
        i = i + 1;
    }
    assert forall|j: int| 0 <= j < v@.skip(from as int).len() implies is_digit(
        #[trigger] v@.skip(from as int)[j],
    ) by {
        assert(v@.skip(from as int)[j] == v@[from + j]);
    }
    true
}

/// Whether `v` is the word `p` followed by exactly one lowercase letter.
fn letter_after(v: &Vec<char>, p: &Vec<char>) -> (r: bool)
    ensures
        r == is_letter_after(v@, p@),
{
    if p.len() >= v.len() || v.len() - p.len() != 1 {
        return false;
    }
    let c = v[v.len() - 1];
    starts_with(v, p) && 'a' <= c && c <= 'z'
}

/// Appends the characters of `v` from position `from` on to `out`.
fn append_from(out: &mut String, v: &Vec<char>, from: usize)
    requires
        from <= v.len(),
    ensures
        final(out)@ == old(out)@ + v@.skip(from as int),
{
    let rest = slice_of(v, from, v.len());
    append_chars(out, &rest);
}

/// The statement of a combination line such as `CTRL c` or `SHIFT TAB`.
fn combo_statement(v: &Vec<char>) -> (r: String)
    ensures
        r@ == "\tDigiKeyboard.sendKeyStroke(0, "@ + combo_modifier(v@) + ", "@ + key_code_or_empty(
            combo_key(v@),
        ) + ");"@,
{
    proof {
        reveal_strlit("CONTROL ");
        reveal_strlit("CTRL ");
        reveal_strlit("SHIFT ");
        reveal_strlit("ALT ");
    }
    let (modifier, rest) = if contains(v, &chars_of("CONTROL")) || contains(v, &chars_of("CTRL")) {
        let without = remove_all(v, &chars_of("CONTROL "));
        ("MOD_CONTROL_LEFT", remove_all(&without, &chars_of("CTRL ")))
    } else if contains(v, &chars_of("SHIFT")) {
        ("MOD_SHIFT_LEFT", remove_all(v, &chars_of("SHIFT ")))
    } else {
        ("MOD_ALT_LEFT", remove_all(v, &chars_of("ALT ")))
    };
    let key = trim(&rest);
    let mut r = String::from_str("\tDigiKeyboard.sendKeyStroke(0, ");
    r.append(modifier);
    r.append(", ");
    match lookup_chars(&key) {
        Some(t) => r.append(t),
        None => {},
    }
    r.append(");");
    r
}

/// Translates one script line into the statement of the firmware program that
/// performs it; a blank line gives the empty string.
pub fn translate(line: &str) -> (r: String)
    ensures
        r@ == translation(line@),
{
    let v = chars_of(line);
    let rem = chars_of("REM ");
    if starts_with(&v, &rem) {
        let mut r = String::from_str("// ");
        append_from(&mut r, &v, rem.len());
        return r;
    }
    let string = chars_of("STRING ");
    if starts_with(&v, &string) {
        let rest = slice_of(&v, string.len(), v.len());
        let mut r = String::from_str("\tDigiKeyboard.print(\"");
        escape_into(&mut r, &rest);
        r.append("\");");
        return r;
    }
    let delay = chars_of("DELAY ");
    if starts_with(&v, &delay) && digits_from(&v, delay.len()) {
        let mut r = String::from_str("\tDigiKeyboard.delay(");
        append_from(&mut r, &v, delay.len());
        r.append(");");
        return r;
    }
    if letter_after(&v, &chars_of("GUI ")) || letter_after(&v, &chars_of("WINDOWS ")) {
        let mut r = String::from_str("\tDigiKeyboard.sendKeyStroke(0, MOD_GUI_LEFT, ");
        push_char(&mut r, v[v.len() - 1]);
        r.append(");");
        return r;
    }
    if starts_with(&v, &chars_of("CONTROL ")) || starts_with(&v, &chars_of("CTRL "))
        || starts_with(&v, &chars_of("SHIFT ")) || starts_with(&v, &chars_of("ALT ")) {
        return combo_statement(&v);
    }
    let name = trim(&v);
    match lookup_chars(&name) {
        Some(t) => {
            let mut r = String::from_str("\tDigiKeyboard.sendKeyStroke(");
            r.append(t);
            r.append(");");
            r
        },
        None => {
            if v.len() == 0 {
                String::new()
            } else {
                let mut r = String::from_str("// Unimplemented: ");
                append_chars(&mut r, &v);
                r
            }
        },
    }
}

/// The lines that open the generated program, up to the body of its loop.
pub open spec fn program_header() -> Seq<char> {
    "#include \"DigiKeyboard.h\"\n\nvoid setup() {}\n\nvoid loop() {\n"@
}

/// The line that closes the generated program.
pub open spec fn program_footer() -> Seq<char> {
    "}\n"@
}

/// The statements of `lines`, in order, each ended by a newline.
pub open spec fn program_body(lines: Seq<Seq<char>>) -> Seq<char>
    decreases lines.len(),
{
    if lines.len() == 0 {
        Seq::empty()
    } else {
        program_body(lines.drop_last()) + translation(lines.last()) + "\n"@
    }
}

/// The characters of each string.
pub open spec fn line_views(lines: Seq<String>) -> Seq<Seq<char>> {
    lines.map_values(|l: String| l@)
}

/// The whole program for a script: the header, one statement line per script
/// line in the same order, and the footer.
pub open spec fn program(lines: Seq<Seq<char>>) -> Seq<char> {
    program_header() + program_body(lines) + program_footer()
}

/// Translates a whole script, one line at a time, and frames the statements
/// into a complete program.
pub fn translate_script(lines: &Vec<String>) -> (r: String)
    ensures
        r@ == program(line_views(lines@)),
{
    let mut r = String::from_str(
        "#include \"DigiKeyboard.h\"\n\nvoid setup() {}\n\nvoid loop() {\n",
    );
    for i in 0..lines.len()
        invariant
            r@ == program_header() + program_body(line_views(lines@.take(i as int))),
    {
        let statement = translate(lines[i].as_str());
        r.append(statement.as_str());
        r.append("\n");
        assert(line_views(lines@.take(i + 1)).drop_last() == line_views(lines@.take(i as int)));
    }
    assert(lines@.take(lines@.len() as int) == lines@);
    r.append("}\n");
    r
}

} // verus!
