//! Laws of the translation, proved for every input they speak of.
use vstd::prelude::*;

use crate::text::has_prefix;
use crate::translate::{
    escape_char, escaped, is_delay_line, is_digits, is_lower, is_special, translation,
};

verus! {

/// A line `REM ` followed by any text becomes the comment `// ` and that same
/// text, unchanged; this holds also where the text reads like another
/// instruction (`REM DELAY 5`), as comments are recognised first.
pub proof fn lemma_comment_line(text: Seq<char>)
    ensures
        translation("REM "@ + text) == "// "@ + text,
{
    let line = "REM "@ + text;
    assert(line.subrange(0, "REM "@.len() as int) == "REM "@);
    assert(line.skip("REM "@.len() as int) == text);
}

/// Text without characters that need escaping is its own escaped form.
pub proof fn lemma_escaped_plain(text: Seq<char>)
    requires
        forall|i: int| 0 <= i < text.len() ==> !is_special(#[trigger] text[i]),
    ensures
        escaped(text) == text,
    decreases text.len(),
{
    if text.len() > 0 {
        let front = text.drop_last();
        assert forall|i: int| 0 <= i < front.len() implies !is_special(#[trigger] front[i]) by {
            assert(front[i] == text[i]);
        }
        lemma_escaped_plain(front);
        assert(!is_special(text[text.len() - 1]));
        assert(front + seq![text.last()] == text);
    }
}

/// A line `STRING ` followed by any text prints the escaped form of that text.
pub proof fn lemma_string_line(text: Seq<char>)
    ensures
        translation("STRING "@ + text) == "\tDigiKeyboard.print(\""@ + escaped(text) + "\");"@,
{
    reveal_strlit("REM ");
    reveal_strlit("STRING ");
    let line = "STRING "@ + text;
    assert(line[0] == 'S');
    assert(!has_prefix(line, "REM "@)) by {
        if has_prefix(line, "REM "@) {
            assert(line.subrange(0, 4)[0] == 'R');
        }
    }
    assert(line.subrange(0, "STRING "@.len() as int) == "STRING "@);
    assert(line.skip("STRING "@.len() as int) == text);
}

/// A line `STRING ` followed by text without characters that need escaping
/// prints exactly that text.
pub proof fn lemma_plain_string(text: Seq<char>)
    requires
        forall|i: int| 0 <= i < text.len() ==> !is_special(#[trigger] text[i]),
    ensures
        translation("STRING "@ + text) == "\tDigiKeyboard.print(\""@ + text + "\");"@,
{
    lemma_string_line(text);
    lemma_escaped_plain(text);
}

/// A line `DELAY ` followed by one or more digits waits for that number of
/// milliseconds, written with the same digits.
pub proof fn lemma_delay_line(digits: Seq<char>)
    requires
        is_digits(digits),
    ensures
        translation("DELAY "@ + digits) == "\tDigiKeyboard.delay("@ + digits + ");"@,
{
    reveal_strlit("REM ");
    reveal_strlit("STRING ");
    reveal_strlit("DELAY ");
    let line = "DELAY "@ + digits;
    assert(line[0] == 'D');
    assert(!has_prefix(line, "REM "@)) by {
        if has_prefix(line, "REM "@) {
            assert(line.subrange(0, 4)[0] == 'R');
        }
    }
    assert(!has_prefix(line, "STRING "@)) by {
        if has_prefix(line, "STRING "@) {
            assert(line.subrange(0, 7)[0] == 'S');
        }
    }
    assert(line.subrange(0, "DELAY "@.len() as int) == "DELAY "@);
    assert(line.skip("DELAY "@.len() as int) == digits);
    assert(is_delay_line(line));
}

/// `GUI ` or `WINDOWS ` followed by one lowercase letter both press that
/// letter with the GUI modifier.
pub proof fn lemma_gui_letter(c: char)
    requires
        is_lower(c),
    ensures
        translation("GUI "@ + seq![c]) == "\tDigiKeyboard.sendKeyStroke(0, MOD_GUI_LEFT, "@ + seq![c]
            + ");"@,
        translation("WINDOWS "@ + seq![c]) == "\tDigiKeyboard.sendKeyStroke(0, MOD_GUI_LEFT, "@
            + seq![c] + ");"@,
{
    reveal_strlit("REM ");
    reveal_strlit("STRING ");
    reveal_strlit("DELAY ");
    reveal_strlit("GUI ");
    reveal_strlit("WINDOWS ");
    let gui = "GUI "@ + seq![c];
    let win = "WINDOWS "@ + seq![c];
    assert(gui[0] == 'G' && win[0] == 'W');
    assert(!has_prefix(gui, "REM "@) && !has_prefix(win, "REM "@)) by {
        if has_prefix(gui, "REM "@) {
            assert(gui.subrange(0, 4)[0] == 'R');
        }
        if has_prefix(win, "REM "@) {
            assert(win.subrange(0, 4)[0] == 'R');
        }
    }
    assert(!has_prefix(gui, "STRING "@) && !has_prefix(win, "STRING "@)) by {
        if has_prefix(gui, "STRING "@) {
            assert(gui.subrange(0, 7)[0] == 'S');
        }
        if has_prefix(win, "STRING "@) {
            assert(win.subrange(0, 7)[0] == 'S');
        }
    }
    assert(!has_prefix(gui, "DELAY "@) && !has_prefix(win, "DELAY "@)) by {
        if has_prefix(gui, "DELAY "@) {
            assert(gui.subrange(0, 6)[0] == 'D');
        }
        if has_prefix(win, "DELAY "@) {
            assert(win.subrange(0, 6)[0] == 'D');
        }
    }
    assert(gui.subrange(0, 4) == "GUI "@);
    assert(win.subrange(0, 8) == "WINDOWS "@);
    assert(gui.last() == c && win.last() == c);
}

/// The character that the escape sequence of backslash and `c` stands for.
pub open spec fn unescape_code(c: char) -> char {
    if c == 'n' {
        '\n'
    } else if c == 'r' {
        '\r'
    } else if c == 't' {
        '\t'
    } else if c == 'b' {
        '\u{8}'
    } else {
        c
    }
}

/// Reads a string literal's contents back: each backslash and the character
/// after it stand for one character.
pub open spec fn unescaped(s: Seq<char>) -> Seq<char>
    decreases s.len(),
{
    if s.len() == 0 {
        s
    } else if s[0] == '\\' && s.len() >= 2 {
        seq![unescape_code(s[1])] + unescaped(s.skip(2))
    } else {
        seq![s[0]] + unescaped(s.skip(1))
    }
}

/// Escaping two pieces of text one after the other escapes their concatenation.
pub proof fn lemma_escaped_concat(a: Seq<char>, b: Seq<char>)
    ensures
        escaped(a + b) == escaped(a) + escaped(b),
    decreases b.len(),
{
    if b.len() == 0 {
        assert(a + b == a);
    } else {
        lemma_escaped_concat(a, b.drop_last());
        assert((a + b).drop_last() == a + b.drop_last());
        assert((a + b).last() == b.last());
    }
}

/// Reading back the escaped form of a piece of text `s` followed by any text
/// reads `s` and then that text: every escape sequence ends where it should.
proof fn lemma_unescaped_prefix(s: Seq<char>, rest: Seq<char>)
    ensures
        unescaped(escaped(s) + rest) == s + unescaped(rest),
    decreases s.len(),
{
    if s.len() == 0 {
        assert(escaped(s) + rest == rest);
        assert(s + unescaped(rest) == unescaped(rest));
    } else {
        let c = s[0];
        let tail = s.skip(1);
        assert(seq![c] + tail == s);
        lemma_escaped_concat(seq![c], tail);
        assert(seq![c].drop_last() == Seq::<char>::empty());
        assert(seq![c].last() == c);
        assert(escaped(Seq::<char>::empty()) == Seq::<char>::empty());
        assert(Seq::<char>::empty() + escape_char(c) == escape_char(c));
        assert(escaped(seq![c]) == escape_char(c));
        lemma_unescaped_prefix(tail, rest);
        let e = escape_char(c) + (escaped(tail) + rest);
        assert(escaped(s) + rest == e);
        if is_special(c) {
            assert(e.skip(2) == escaped(tail) + rest);
        } else {
            assert(e.skip(1) == escaped(tail) + rest);
        }
        assert(seq![c] + (tail + unescaped(rest)) == s + unescaped(rest));
    }
}

/// Escaping round trip: reading back the escaped form of any text gives that
/// text, so a double quote or a backslash in it never comes out bare.
pub proof fn lemma_escape_round_trip(s: Seq<char>)
    ensures
        unescaped(escaped(s)) == s,
{
    lemma_unescaped_prefix(s, Seq::empty());
    assert(escaped(s) + Seq::<char>::empty() == escaped(s));
    assert(s + Seq::<char>::empty() == s);
}

} // verus!
