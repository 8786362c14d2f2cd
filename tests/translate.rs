use ducky_translate::{escape_string_chars, get_keycode, lookup, translate, translate_script};

#[test]
fn comment_of_single_letter_or_digit() {
    for c in ('a'..='z').chain('A'..='Z').chain('0'..='9') {
        assert_eq!(translate(&format!("REM {}", c)), format!("// {}", c));
    }
}

#[test]
fn comment_keeps_text_unescaped() {
    assert_eq!(translate("REM say \"hi\"\\"), "// say \"hi\"\\");
    assert_eq!(translate("REM "), "// ");
}

#[test]
fn plain_string_is_printed() {
    for s in ["Hi!", "hello world", "", "abc 123 ,.;"] {
        assert_eq!(
            translate(&format!("STRING {}", s)),
            format!("\tDigiKeyboard.print(\"{}\");", s)
        );
    }
}

#[test]
fn string_quote_is_escaped() {
    let out = translate("STRING a\\\"b");
    assert_eq!(out, "\tDigiKeyboard.print(\"a\\\\\\\"b\");");
    assert!(out.contains("\\\""));
}

#[test]
fn escape_each_special_character() {
    assert_eq!(escape_string_chars("\\"), "\\\\");
    assert_eq!(escape_string_chars("\""), "\\\"");
    assert_eq!(escape_string_chars("\n"), "\\n");
    assert_eq!(escape_string_chars("\r"), "\\r");
    assert_eq!(escape_string_chars("\t"), "\\t");
    assert_eq!(escape_string_chars("\u{8}"), "\\b");
    assert_eq!(escape_string_chars("é€x"), "é€x");
    assert_eq!(escape_string_chars(""), "");
}

#[test]
fn delay_keeps_digits() {
    for n in [0u64, 1, 500, 1234567890] {
        assert_eq!(
            translate(&format!("DELAY {}", n)),
            format!("\tDigiKeyboard.delay({});", n)
        );
    }
    assert_eq!(translate("DELAY 007"), "\tDigiKeyboard.delay(007);");
}

#[test]
fn delay_without_digits_is_unimplemented() {
    assert_eq!(translate("DELAY"), "// Unimplemented: DELAY");
    assert_eq!(translate("DELAY "), "// Unimplemented: DELAY ");
    assert_eq!(translate("DELAY 5a"), "// Unimplemented: DELAY 5a");
}

#[test]
fn gui_and_windows_letters() {
    for c in 'a'..='z' {
        let expected = format!("\tDigiKeyboard.sendKeyStroke(0, MOD_GUI_LEFT, {});", c);
        assert_eq!(translate(&format!("GUI {}", c)), expected);
        assert_eq!(translate(&format!("WINDOWS {}", c)), expected);
    }
}

#[test]
fn gui_with_uppercase_letter_is_unimplemented() {
    assert_eq!(translate("GUI R"), "// Unimplemented: GUI R");
}

#[test]
fn ctrl_a_uses_control_and_key_a() {
    let out = translate("CTRL a");
    assert!(out.contains("MOD_CONTROL_LEFT"));
    assert!(out.contains("KEY_A"));
    assert_eq!(out, "\tDigiKeyboard.sendKeyStroke(0, MOD_CONTROL_LEFT, KEY_A);");
}

#[test]
fn modifier_combinations() {
    assert_eq!(
        translate("CONTROL ESC"),
        "\tDigiKeyboard.sendKeyStroke(0, MOD_CONTROL_LEFT, 41);"
    );
    assert_eq!(
        translate("SHIFT TAB"),
        "\tDigiKeyboard.sendKeyStroke(0, MOD_SHIFT_LEFT, 43);"
    );
    assert_eq!(
        translate("ALT F4"),
        "\tDigiKeyboard.sendKeyStroke(0, MOD_ALT_LEFT, KEY_F4);"
    );
    assert_eq!(
        translate("ALT  ENTER  "),
        "\tDigiKeyboard.sendKeyStroke(0, MOD_ALT_LEFT, KEY_ENTER);"
    );
}

#[test]
fn modifier_with_unknown_key_leaves_key_empty() {
    assert_eq!(
        translate("ALT NOPE"),
        "\tDigiKeyboard.sendKeyStroke(0, MOD_ALT_LEFT, );"
    );
    // Control wins over shift wherever it is named; only its word is removed.
    assert_eq!(
        translate("SHIFT CTRL a"),
        "\tDigiKeyboard.sendKeyStroke(0, MOD_CONTROL_LEFT, );"
    );
}

#[test]
fn empty_line_is_empty() {
    assert_eq!(translate(""), "");
}

#[test]
fn unknown_instruction_is_unimplemented() {
    assert_eq!(
        translate("NOT_A_REAL_INSTRUCTION"),
        "// Unimplemented: NOT_A_REAL_INSTRUCTION"
    );
    assert_eq!(translate("   "), "// Unimplemented:    ");
}

#[test]
fn enter_is_a_named_key() {
    assert_eq!(translate("ENTER"), "\tDigiKeyboard.sendKeyStroke(KEY_ENTER);");
}

#[test]
fn named_key_is_trimmed() {
    assert_eq!(translate("  HOME\t"), "\tDigiKeyboard.sendKeyStroke(74);");
    assert_eq!(translate("\u{3000}ENTER"), "\tDigiKeyboard.sendKeyStroke(KEY_ENTER);");
    assert_eq!(translate("x"), "\tDigiKeyboard.sendKeyStroke(KEY_X);");
}

#[test]
fn comment_wins_over_delay() {
    assert_eq!(translate("REM DELAY 5"), "// DELAY 5");
}

#[test]
fn whole_script() {
    let lines: Vec<String> = ["REM hello", "STRING Hi!", "DELAY 500", "ENTER", ""]
        .iter()
        .map(|s| s.to_string())
        .collect();
    let expected = "#include \"DigiKeyboard.h\"\n\nvoid setup() {}\n\nvoid loop() {\n\
                    // hello\n\
                    \tDigiKeyboard.print(\"Hi!\");\n\
                    \tDigiKeyboard.delay(500);\n\
                    \tDigiKeyboard.sendKeyStroke(KEY_ENTER);\n\
                    \n\
                    }\n";
    assert_eq!(translate_script(&lines), expected);
}

#[test]
fn empty_script() {
    assert_eq!(
        translate_script(&Vec::new()),
        "#include \"DigiKeyboard.h\"\n\nvoid setup() {}\n\nvoid loop() {\n}\n"
    );
}
